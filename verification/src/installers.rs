//! The installers of a custom toolchain: which archives are accepted, and
//! which of them must be downloaded first.

use crate::errors::{Error, ErrorView};
use crate::paths::FsPath;
use crate::text::{is_last_position, last_index_of, same_text, starts_with, text_option};
use url::Url;
use vstd::prelude::*;

verus! {

/// Where the archive of an installer is.
#[derive(Debug, PartialEq, Eq)]
pub enum InstallerSource {
    /// At a URL: it is downloaded to a temporary file first.
    Remote(String),
    /// On this machine.
    Local(FsPath),
}

pub enum InstallerSourceView {
    Remote(Seq<char>),
    Local(Seq<Seq<char>>),
}

impl View for InstallerSource {
    type V = InstallerSourceView;

    open spec fn view(&self) -> InstallerSourceView {
        match self {
            InstallerSource::Remote(url) => InstallerSourceView::Remote(url@),
            InstallerSource::Local(path) => InstallerSourceView::Local(path@),
        }
    }
}

pub open spec fn source_result(r: Result<InstallerSource, Error>) -> Result<
    InstallerSourceView,
    ErrorView,
> {
    match r {
        Ok(source) => Ok(source@),
        Err(e) => Err(e@),
    }
}

/// The position of the last dot of a text that holds one.
pub open spec fn last_dot(s: Seq<char>) -> int {
    choose|at: int| is_last_position(s, '.', at)
}

/// What follows the last dot of a text; none where the text holds no dot.
pub open spec fn extension_of(s: Seq<char>) -> Option<Seq<char>> {
    if s.contains('.') {
        Some(s.subrange(last_dot(s) + 1, s.len() as int))
    } else {
        None
    }
}

/// The extension that a supported archive carries.
pub open spec fn archive_extension() -> Seq<char> {
    "gz"@
}

/// The error that refuses an installer, if it is refused: the extension must
/// be that of a supported archive.
pub open spec fn extension_fault(installer: Seq<char>) -> Option<ErrorView> {
    match extension_of(installer) {
        None => Some(ErrorView::BadInstallerType("(none)"@)),
        Some(extension) => if extension == archive_extension() {
            None
        } else {
            Some(ErrorView::BadInstallerType(extension))
        },
    }
}

/// Whether a text starts like a URL of a scheme that can be downloaded.
pub open spec fn has_url_scheme(s: Seq<char>) -> bool {
    "file://"@.is_prefix_of(s) || "http://"@.is_prefix_of(s) || "https://"@.is_prefix_of(s)
}

/// Where an installer is, given what the URL parser made of it. It is remote
/// only if it both starts with a known scheme and parses as a URL.
pub open spec fn installer_source(installer: Seq<char>, url: Option<Seq<char>>) -> Result<
    InstallerSourceView,
    ErrorView,
> {
    match extension_fault(installer) {
        Some(fault) => Err(fault),
        None => if has_url_scheme(installer) && url is Some {
            Ok(InstallerSourceView::Remote(url->0))
        } else {
            Ok(InstallerSourceView::Local(seq![installer]))
        },
    }
}

/// The serialization of the absolute URL that `url::Url::parse` reads from a
/// text; none where it reads no URL.
pub uninterp spec fn parsed_url(input: Seq<char>) -> Option<Seq<char>>;

/// Calls `url::Url::parse` and, where it succeeds, serializes the URL.
///
/// Trusted: the result depends on the input text alone.
#[verifier::external_body]
fn parse_url(input: &str) -> (url: Option<String>)
    ensures
        text_option(url) == parsed_url(input@),
{
    match Url::parse(input) {
        Ok(url) => Some(String::from(url)),
        Err(_) => None,
    }
}

/// The text that stands for an installer: its name, or a fixed word where the
/// name is not text.
pub fn installer_text(name: Option<String>) -> (text: String)
    ensures
        text@ == match name {
            Some(t) => t@,
            None => "bogus"@,
        },
{
    match name {
        Some(t) => t,
        None => "bogus".to_owned(),
    }
}

/// Refuses an installer whose extension is not that of a supported archive.
pub fn check_extension(installer: &str) -> (fault: Option<Error>)
    ensures
        match fault {
            Some(e) => Some(e@),
            None => None,
        } == extension_fault(installer@),
{
    match last_index_of(installer, '.') {
        Some(at) => {
            assert(installer@[at as int] == '.');
            assert(installer@.contains('.'));
            assert(last_dot(installer@) == at);
            let len = installer.unicode_len();
            let extension = installer.substring_char(at + 1, len);
            if same_text(extension, "gz") {
                None
            } else {
                Some(Error::BadInstallerType(extension.to_owned()))
            }
        },
        None => Some(Error::BadInstallerType("(none)".to_owned())),
    }
}

/// Where an installer is, given what the URL parser made of its text.
pub fn locate_installer(installer: &str, url: Option<String>) -> (source: Result<
    InstallerSource,
    Error,
>)
    ensures
        source_result(source) == installer_source(installer@, text_option(url)),
{
    match check_extension(installer) {
        Some(fault) => Err(fault),
        None => {
            let schemed = starts_with(installer, "file://") || starts_with(installer, "http://")
                || starts_with(installer, "https://");
            match url {
                Some(address) => {
                    if schemed {
                        Ok(InstallerSource::Remote(address))
                    } else {
                        Ok(InstallerSource::Local(FsPath::new(installer)))
                    }
                },
                None => Ok(InstallerSource::Local(FsPath::new(installer))),
            }
        },
    }
}

/// Where an installer is: remote if it starts with a known scheme and the URL
/// parser accepts it, local otherwise; an error if its extension is not that
/// of a supported archive.
pub fn classify_installer(installer: &str) -> (source: Result<InstallerSource, Error>)
    ensures
        source_result(source) == installer_source(installer@, parsed_url(installer@)),
{
    let url = parse_url(installer);
    locate_installer(installer, url)
}

} // verus!
