//! Language identifiers: the closed set of supported language tags and the
//! parser that maps a tag string to its identifier.

use vstd::prelude::*;
use vstd::string::StringExecFns;

verus! {

/// The closed set of languages the registry can select.
#[derive(Clone, Copy, Debug, PartialEq, Eq, Structural)]
pub enum WASMLang {
    JavaScript,
    TypeScript,
    Bash,
    C,
    CSharp,
    Cpp,
    Go,
    Html,
    Java,
    Php,
    Python,
    Ruby,
    Rust,
    Toml,
    Yaml,
}

/// The canonical tag string of each supported language.
pub open spec fn tag_of(l: WASMLang) -> Seq<char> {
    match l {
        WASMLang::JavaScript => "javascript"@,
        WASMLang::TypeScript => "typescript"@,
        WASMLang::Bash => "bash"@,
        WASMLang::C => "c"@,
        WASMLang::CSharp => "csharp"@,
        WASMLang::Cpp => "cpp"@,
        WASMLang::Go => "go"@,
        WASMLang::Html => "html"@,
        WASMLang::Java => "java"@,
        WASMLang::Php => "php"@,
        WASMLang::Python => "python"@,
        WASMLang::Ruby => "ruby"@,
        WASMLang::Rust => "rust"@,
        WASMLang::Toml => "toml"@,
        WASMLang::Yaml => "yaml"@,
    }
}

/// Which language, if any, a tag string denotes. Exactly the canonical tags
/// are recognized; every other string denotes no language.
pub open spec fn lang_of_tag(s: Seq<char>) -> Option<WASMLang> {
    if s == "javascript"@ {
        Some(WASMLang::JavaScript)
    } else if s == "typescript"@ {
        Some(WASMLang::TypeScript)
    } else if s == "bash"@ {
        Some(WASMLang::Bash)
    } else if s == "c"@ {
        Some(WASMLang::C)
    } else if s == "csharp"@ {
        Some(WASMLang::CSharp)
    } else if s == "cpp"@ {
        Some(WASMLang::Cpp)
    } else if s == "go"@ {
        Some(WASMLang::Go)
    } else if s == "html"@ {
        Some(WASMLang::Html)
    } else if s == "java"@ {
        Some(WASMLang::Java)
    } else if s == "php"@ {
        Some(WASMLang::Php)
    } else if s == "python"@ {
        Some(WASMLang::Python)
    } else if s == "ruby"@ {
        Some(WASMLang::Ruby)
    } else if s == "rust"@ {
        Some(WASMLang::Rust)
    } else if s == "toml"@ {
        Some(WASMLang::Toml)
    } else if s == "yaml"@ {
        Some(WASMLang::Yaml)
    } else {
        None
    }
}

/// Error for a tag outside the recognized set; it preserves the offending
/// tag verbatim for diagnostics.
#[derive(Debug)]
pub struct NotSupport(String);

impl View for NotSupport {
    type V = Seq<char>;

    closed spec fn view(&self) -> Seq<char> {
        self.0@
    }
}

impl NotSupport {
    /// Wraps an unrecognized tag.
    pub fn new(tag: &str) -> (e: NotSupport)
        ensures
            e@ == tag@,
    {
        NotSupport(String::from_str(tag))
    }

    /// The offending tag, exactly as the caller supplied it.
    pub fn tag(&self) -> (t: &str)
        ensures
            t@ == self@,
    {
        self.0.as_str()
    }

    /// A human-readable description naming the unsupported tag.
    pub fn message(&self) -> (m: String)
        ensures
            m@ == "Language "@ + self@ + " is not supported."@,
    {
        let mut m = String::from_str("Language ");
        m.append(self.0.as_str());
        m.append(" is not supported.");
        m
    }
}

/// Relies on str's PartialEq: two string slices compare equal exactly when
/// their character sequences are equal.
#[verifier::external_body]
fn str_eq(a: &str, b: &str) -> (r: bool)
    ensures
        r == (a@ == b@),
{
    a == b
}

impl WASMLang {
    /// Parses a language tag. Exactly the canonical lowercase tags are
    /// accepted; any other string is rejected with the tag preserved.
    pub fn from_str(s: &str) -> (r: Result<WASMLang, NotSupport>)
        ensures
            match r {
                Ok(l) => lang_of_tag(s@) == Some(l),
                Err(e) => lang_of_tag(s@) is None && e@ == s@,
            },
    {
        if str_eq(s, "javascript") {
            Ok(WASMLang::JavaScript)
        } else if str_eq(s, "typescript") {
            Ok(WASMLang::TypeScript)
        } else if str_eq(s, "bash") {
            Ok(WASMLang::Bash)
        } else if str_eq(s, "c") {
            Ok(WASMLang::C)
        } else if str_eq(s, "csharp") {
            Ok(WASMLang::CSharp)
        } else if str_eq(s, "cpp") {
            Ok(WASMLang::Cpp)
        } else if str_eq(s, "go") {
            Ok(WASMLang::Go)
        } else if str_eq(s, "html") {
            Ok(WASMLang::Html)
        } else if str_eq(s, "java") {
            Ok(WASMLang::Java)
        } else if str_eq(s, "php") {
            Ok(WASMLang::Php)
        } else if str_eq(s, "python") {
            Ok(WASMLang::Python)
        } else if str_eq(s, "ruby") {
            Ok(WASMLang::Ruby)
        } else if str_eq(s, "rust") {
            Ok(WASMLang::Rust)
        } else if str_eq(s, "toml") {
            Ok(WASMLang::Toml)
        } else if str_eq(s, "yaml") {
            Ok(WASMLang::Yaml)
        } else {
            Err(NotSupport::new(s))
        }
    }
}

/// Every supported language's canonical tag parses back to that language:
/// the canonical tags are pairwise distinct and all recognized.
pub proof fn lemma_tag_round_trip(l: WASMLang)
    ensures
        lang_of_tag(tag_of(l)) == Some(l),
{
    reveal_strlit("javascript");
    reveal_strlit("typescript");
    reveal_strlit("bash");
    reveal_strlit("c");
    reveal_strlit("csharp");
    reveal_strlit("cpp");
    reveal_strlit("go");
    reveal_strlit("html");
    reveal_strlit("java");
    reveal_strlit("php");
    reveal_strlit("python");
    reveal_strlit("ruby");
    reveal_strlit("rust");
    reveal_strlit("toml");
    reveal_strlit("yaml");
    assert("javascript"@.len() == 10);
    assert("typescript"@.len() == 10);
    assert("bash"@.len() == 4);
    assert("c"@.len() == 1);
    assert("csharp"@.len() == 6);
    assert("cpp"@.len() == 3);
    assert("go"@.len() == 2);
    assert("html"@.len() == 4);
    assert("java"@.len() == 4);
    assert("php"@.len() == 3);
    assert("python"@.len() == 6);
    assert("ruby"@.len() == 4);
    assert("rust"@.len() == 4);
    assert("toml"@.len() == 4);
    assert("yaml"@.len() == 4);
    assert("javascript"@.index(0) == 'j');
    assert("typescript"@.index(0) == 't');
    assert("bash"@.index(0) == 'b');
    assert("csharp"@.index(0) == 'c');
    assert("cpp"@.index(0) == 'c');
    assert("html"@.index(0) == 'h');
    assert("java"@.index(0) == 'j');
    assert("php"@.index(0) == 'p');
    assert("python"@.index(0) == 'p');
    assert("ruby"@.index(0) == 'r');
    assert("rust"@.index(0) == 'r');
    assert("toml"@.index(0) == 't');
    assert("yaml"@.index(0) == 'y');
    assert("ruby"@.index(2) == 'b');
    assert("rust"@.index(2) == 's');
}

/// Only the canonical tags are recognized: whenever a string denotes a
/// language, it is that language's canonical tag.
pub proof fn lemma_recognized_tag_is_canonical(s: Seq<char>, l: WASMLang)
    requires
        lang_of_tag(s) == Some(l),
    ensures
        tag_of(l) == s,
{
}

} // verus!
