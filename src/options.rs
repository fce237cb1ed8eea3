use vstd::prelude::*;
use vstd::string::StrSliceExecFns;

verus! {

/// Whether two texts hold the same characters.
pub fn same_text(a: &str, b: &str) -> (r: bool)
    ensures
        r == (a@ == b@),
{
    let n = a.unicode_len();
    if n != b.unicode_len() {
        return false;
    }
    let mut i: usize = 0;
    while i < n
        invariant
            n == a@.len(),
            n == b@.len(),
            i <= n,
            forall|k: int| 0 <= k < i ==> a@[k] == b@[k],
        decreases n - i,
    {
        if a.get_char(i) != b.get_char(i) {
            return false;
        }
        i = i + 1;
    }
    assert(a@ =~= b@);
    true
}

/// How the client logs in to the service.
#[derive(Debug, Clone, Copy, PartialEq, Eq, Structural)]
pub enum AuthScheme {
    /// With the office login: email and password.
    Office,
    /// With a bearer token.
    Jwt,
}

/// The login scheme that a name on the command line selects.
pub open spec fn auth_scheme_named(name: Seq<char>) -> Option<AuthScheme> {
    if name == "o365"@ {
        Some(AuthScheme::Office)
    } else if name == "jwt"@ {
        Some(AuthScheme::Jwt)
    } else {
        None
    }
}

impl AuthScheme {
    /// The scheme named `o365` or `jwt`; none for any other name.
    pub fn from_name(name: &str) -> (r: Option<AuthScheme>)
        ensures
            r == auth_scheme_named(name@),
    {
        if same_text(name, "o365") {
            Some(AuthScheme::Office)
        } else if same_text(name, "jwt") {
            Some(AuthScheme::Jwt)
        } else {
            None
        }
    }
}

/// The shape in which a timetable is handed out.
#[derive(Debug, Clone, Copy, PartialEq, Eq, Structural)]
pub enum Transformer {
    /// One record per weekday.
    Smart,
    /// One map from day to lessons.
    SmartDayMap,
    /// The week layout of the first version.
    Legacy,
}

/// The timetable shape that a name on the command line selects.
pub open spec fn transformer_named(name: Seq<char>) -> Option<Transformer> {
    if name == "smart"@ {
        Some(Transformer::Smart)
    } else if name == "smart_daymap"@ {
        Some(Transformer::SmartDayMap)
    } else if name == "legacy"@ {
        Some(Transformer::Legacy)
    } else {
        None
    }
}

impl Transformer {
    /// The shape named `smart`, `smart_daymap` or `legacy`; none for any other name.
    pub fn from_name(name: &str) -> (r: Option<Transformer>)
        ensures
            r == transformer_named(name@),
    {
        if same_text(name, "smart") {
            Some(Transformer::Smart)
        } else if same_text(name, "smart_daymap") {
            Some(Transformer::SmartDayMap)
        } else if same_text(name, "legacy") {
            Some(Transformer::Legacy)
        } else {
            None
        }
    }
}

/// How a timetable is written out.
#[derive(Debug, Clone, Copy, PartialEq, Eq, Structural)]
pub enum OutputFormat {
    Yaml,
    Json,
    /// A terminal view, not offered yet.
    Curses,
}

/// The output format that a name on the command line selects.
pub open spec fn output_format_named(name: Seq<char>) -> Option<OutputFormat> {
    if name == "yaml"@ {
        Some(OutputFormat::Yaml)
    } else if name == "json"@ {
        Some(OutputFormat::Json)
    } else if name == "curses"@ {
        Some(OutputFormat::Curses)
    } else {
        None
    }
}

impl OutputFormat {
    /// The format named `yaml`, `json` or `curses`; none for any other name.
    pub fn from_name(name: &str) -> (r: Option<OutputFormat>)
        ensures
            r == output_format_named(name@),
    {
        if same_text(name, "yaml") {
            Some(OutputFormat::Yaml)
        } else if same_text(name, "json") {
            Some(OutputFormat::Json)
        } else if same_text(name, "curses") {
            Some(OutputFormat::Curses)
        } else {
            None
        }
    }
}

} // verus!
