use vstd::prelude::*;

verus! {

/// What `url::Url::parse` followed by `url::Url::scheme` yields for a given
/// input string: `None` when the string does not parse as an absolute URL,
/// otherwise the parsed URL's scheme. The outcome depends on the characters
/// of the input alone, which is what lets it carry a name at all.
pub uninterp spec fn parsed_scheme(s: Seq<char>) -> Option<Seq<char>>;

/// Relies on `url::Url::parse` and `url::Url::scheme`: parsing either fails,
/// or produces a URL whose scheme is a function of the input characters
/// alone.
#[verifier::external_body]
fn parse_scheme(s: &str) -> (r: Option<String>)
    ensures
        match r {
            Some(scheme) => parsed_scheme(s@) == Some(scheme@),
            None => parsed_scheme(s@) is None,
        },
{
    match url::Url::parse(s) {
        Ok(u) => Some(u.scheme().to_string()),
        Err(_) => None,
    }
}

/// Mathematical model of a connection URL: its scheme and the raw connection
/// string it was parsed from.
pub ghost struct AnyUrlModel {
    pub scheme: Seq<char>,
    pub raw: Seq<char>,
}

/// The slice of a connection URL this core reads: the scheme that selects a
/// driver, kept beside the raw connection string the embedding code hands to
/// the chosen backend. URL parsing itself is not this core's logic; a value
/// of this type is the pre-validated structured input the selector works on.
pub struct AnyUrl {
    scheme: String,
    raw: String,
}

impl View for AnyUrl {
    type V = AnyUrlModel;

    closed spec fn view(&self) -> AnyUrlModel {
        AnyUrlModel { scheme: self.scheme@, raw: self.raw@ }
    }
}

impl AnyUrl {
    /// Parse a connection string: `Some` exactly when it is an absolute URL,
    /// and then the model holds that URL's scheme and the string itself.
    pub fn parse(s: &str) -> (r: Option<AnyUrl>)
        ensures
            match r {
                Some(u) => parsed_scheme(s@) == Some(u@.scheme) && u@.raw == s@,
                None => parsed_scheme(s@) is None,
            },
    {
        match parse_scheme(s) {
            Some(scheme) => Some(AnyUrl { scheme, raw: s.to_owned() }),
            None => None,
        }
    }

    /// The URL's scheme.
    pub fn scheme(&self) -> (r: &str)
        ensures
            r@ == self@.scheme,
    {
        self.scheme.as_str()
    }

    /// The URL's scheme, as an owned string.
    pub fn scheme_string(&self) -> (r: String)
        ensures
            r@ == self@.scheme,
    {
        self.scheme.clone()
    }

    /// The raw connection string this URL was parsed from.
    pub fn as_str(&self) -> (r: &str)
        ensures
            r@ == self@.raw,
    {
        self.raw.as_str()
    }
}

/// Options for a connection attempt: the target URL. Per-backend option
/// types are derived from this by the backend integrations themselves.
pub struct AnyConnectOptions {
    pub database_url: AnyUrl,
}

impl AnyConnectOptions {
    /// Wrap a parsed URL as connect options.
    pub fn new(database_url: AnyUrl) -> (r: Self)
        ensures
            r.database_url == database_url,
    {
        AnyConnectOptions { database_url }
    }
}

} // verus!
