use url::ParseError;
use url::Url;
use vstd::prelude::*;
use vstd::string::StringExecFns;

verus! {

#[verifier::external_type_specification]
#[verifier::external_body]
pub struct ExParseError(ParseError);

/// Where a package, or a directory of packages, is to be found.
#[derive(Debug, Clone, Hash, PartialOrd, PartialEq)]
pub enum EpubPath {
    /// A path in the local file system.
    LocalPath(String),
    /// An absolute URL, in its normal form.
    Url(String),
    /// A content address.
    NFTAddress(String),
}

/// An identifier, as contracts speak of it.
pub enum EpubPathView {
    LocalPath(Seq<char>),
    Url(Seq<char>),
    NFTAddress(Seq<char>),
}

impl DeepView for EpubPath {
    type V = EpubPathView;

    open spec fn deep_view(&self) -> EpubPathView {
        match *self {
            EpubPath::LocalPath(path) => EpubPathView::LocalPath(path@),
            EpubPath::Url(url) => EpubPathView::Url(url@),
            EpubPath::NFTAddress(address) => EpubPathView::NFTAddress(address@),
        }
    }
}

/// What the `url` crate makes of a text: `None` where the text is no
/// absolute URL, otherwise the URL in its normal form.
pub uninterp spec fn parsed_url(text: Seq<char>) -> Option<Seq<char>>;

/// `url::Url::parse`, and the URL it returns turned into its
/// serialization.
#[verifier::external_body]
fn parse_url(text: &str) -> (r: Result<String, ParseError>)
    ensures
        r is Ok <==> parsed_url(text@) is Some,
        r matches Ok(url) ==> parsed_url(text@) == Some(url@),
{
    Url::parse(text).map(String::from)
}

impl EpubPath {
    /// Reads an identifier: a text that parses as an absolute URL is a
    /// `Url`, and every other text is a `LocalPath`.
    pub fn new(path: &str) -> (r: EpubPath)
        ensures
            r.deep_view() == match parsed_url(path@) {
                Some(url) => EpubPathView::Url(url),
                None => EpubPathView::LocalPath(path@),
            },
    {
        match parse_url(path) {
            Ok(url) => EpubPath::Url(url),
            Err(_) => EpubPath::LocalPath(String::from_str(path)),
        }
    }
}

} // verus!
