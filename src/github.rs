//! Repository classification and selection, and the code search queries.

use vstd::prelude::*;
use crate::text::{owned, push_text};

verus! {

/// How critical a repository is, as recorded in its `repository-level` custom property.
#[derive(Debug, Clone, Copy, PartialEq, Eq, Hash, PartialOrd, Ord)]
pub enum AssetLevel {
    Production,
    /// Just testing the waters. Not even development breaks if this breaks.
    Playground,
    /// Used for development.
    ResearchNDevelopment,
    /// Only relevant for internal folks. No link to production.
    Corporate,
    /// Publicly accessible services that are not part of the core product.
    NonEssentialProduction,
}

/// A custom property attached to a repository.
#[derive(Debug)]
pub struct CustomProperty {
    pub property_name: String,
    pub value: Option<CustomPropertyValue>,
}

/// The value of a custom property: a single string or a list of strings.
#[derive(Debug, PartialEq, Eq)]
pub enum CustomPropertyValue {
    String(String),
    Array(Vec<String>),
}

/// The level whose textual form is `s`, if any.
pub open spec fn level_named(s: Seq<char>) -> Option<AssetLevel> {
    if s == "Production"@ {
        Some(AssetLevel::Production)
    } else if s == "Playground"@ {
        Some(AssetLevel::Playground)
    } else if s == "Research & Development"@ {
        Some(AssetLevel::ResearchNDevelopment)
    } else if s == "Corporate"@ {
        Some(AssetLevel::Corporate)
    } else if s == "Non-essential Production"@ {
        Some(AssetLevel::NonEssentialProduction)
    } else {
        None
    }
}

/// The index of the first property named `repository-level`, searching from `start`.
pub open spec fn level_prop_index(props: Seq<CustomProperty>, start: int) -> Option<int>
    decreases props.len() - start,
{
    if start < 0 || start >= props.len() {
        None
    } else if props[start].property_name@ == "repository-level"@ {
        Some(start)
    } else {
        level_prop_index(props, start + 1)
    }
}

/// The level that a list of properties records: the one named by the first
/// `repository-level` property, if it holds a known name.
pub open spec fn level_of_props(props: Seq<CustomProperty>) -> Option<AssetLevel> {
    match level_prop_index(props, 0) {
        None => None,
        Some(i) => match props[i].value {
            Some(CustomPropertyValue::String(s)) => level_named(s@),
            _ => None,
        },
    }
}

/// A `repository-level` property that holds a list: such a classification is not supported.
pub open spec fn level_is_list(props: Seq<CustomProperty>) -> bool {
    match level_prop_index(props, 0) {
        Some(i) => props[i].value matches Some(CustomPropertyValue::Array(_)),
        None => false,
    }
}


impl AssetLevel {
    /// The textual form of each level.
    pub open spec fn spec_name(self) -> Seq<char> {
        match self {
            AssetLevel::Production => "Production"@,
            AssetLevel::Playground => "Playground"@,
            AssetLevel::ResearchNDevelopment => "Research & Development"@,
            AssetLevel::Corporate => "Corporate"@,
            AssetLevel::NonEssentialProduction => "Non-essential Production"@,
        }
    }

    /// Reads the level from a repository's custom properties.
    pub fn get_from_props(props: &[CustomProperty]) -> (r: Option<AssetLevel>)
        requires
            !level_is_list(props@),
        ensures
            r == level_of_props(props@),
    {
        let key = owned("repository-level");
        let mut i: usize = 0;
        while i < props.len()
            invariant
                0 <= i <= props@.len(),
                key@ == "repository-level"@,
                level_prop_index(props@, 0) == level_prop_index(props@, i as int),
            decreases props@.len() - i,
        {
            if props[i].property_name == key {
                return match &props[i].value {
                    None => None,
                    Some(CustomPropertyValue::String(s)) => AssetLevel::from_name(s),
                    Some(CustomPropertyValue::Array(_)) => None,
                };
            }
            i = i + 1;
        }
        None
    }

    /// The level whose textual form is `s`.
    pub fn from_name(s: &String) -> (r: Option<AssetLevel>)
        ensures
            r == level_named(s@),
    {
        if *s == owned("Production") {
            Some(AssetLevel::Production)
        } else if *s == owned("Playground") {
            Some(AssetLevel::Playground)
        } else if *s == owned("Research & Development") {
            Some(AssetLevel::ResearchNDevelopment)
        } else if *s == owned("Corporate") {
            Some(AssetLevel::Corporate)
        } else if *s == owned("Non-essential Production") {
            Some(AssetLevel::NonEssentialProduction)
        } else {
            None
        }
    }

    /// The textual form of the level.
    pub fn to_string(&self) -> (r: String)
        ensures
            r@ == self.spec_name(),
    {
        match self {
            AssetLevel::Production => owned("Production"),
            AssetLevel::Playground => owned("Playground"),
            AssetLevel::ResearchNDevelopment => owned("Research & Development"),
            AssetLevel::Corporate => owned("Corporate"),
            AssetLevel::NonEssentialProduction => owned("Non-essential Production"),
        }
    }
}

/// Whether a repository of this level gets a configuration: it must be
/// classified, and not as a playground.
pub fn level_allows(level: Option<AssetLevel>) -> (r: bool)
    ensures
        r == (level is Some && level != Some(AssetLevel::Playground)),
{
    match level {
        None => false,
        Some(AssetLevel::Playground) => false,
        Some(_) => true,
    }
}

/// Whether a repository is processed: it is not archived, and it is among the
/// names asked for where any were.
pub fn repo_selected(archived: Option<bool>, name: &String, only: &Vec<String>) -> (r: bool)
    ensures
        r == (archived != Some(true) && (only@.len() == 0 || exists|i: int|
            0 <= i < only@.len() && (#[trigger] only@[i])@ == name@)),
{
    if let Some(true) = archived {
        return false;
    }
    if only.len() == 0 {
        return true;
    }
    let mut i: usize = 0;
    while i < only.len()
        invariant
            0 <= i <= only@.len(),
            archived != Some(true),
            forall|k: int| 0 <= k < i ==> (#[trigger] only@[k])@ != name@,
        decreases only@.len() - i,
    {
        if only[i] == *name {
            assert(only@[i as int]@ == name@);
            return true;
        }
        i = i + 1;
    }
    false
}

/// The code search query for files named `file` in the organisation, holding
/// the exact phrase `content` where one is given.
pub open spec fn query_of(file: Seq<char>, content: Option<Seq<char>>) -> Seq<char> {
    "org:KittyCAD filename:"@ + file + match content {
        Some(c) => " \""@ + c + "\""@,
        None => Seq::<char>::empty(),
    }
}

/// The code search query for files named `file`, holding `content` where given.
pub fn search_query(file: &str, content: Option<&str>) -> (r: String)
    ensures
        r@ == query_of(file@, match content {
            Some(c) => Some(c@),
            None => None,
        }),
{
    let mut q = owned("org:KittyCAD filename:");
    push_text(&mut q, file);
    match content {
        Some(c) => {
            push_text(&mut q, " \"");
            push_text(&mut q, c);
            push_text(&mut q, "\"");
            assert(q@ =~= query_of(file@, Some(c@)));
        },
        None => {
            assert(q@ =~= query_of(file@, None));
        },
    }
    q
}

/// Reading back the textual form of a level gives the level.
pub proof fn lemma_level_name_round_trip(l: AssetLevel)
    ensures
        level_named(l.spec_name()) == Some(l),
{
    reveal_strlit("Production");
    reveal_strlit("Playground");
    reveal_strlit("Research & Development");
    reveal_strlit("Corporate");
    reveal_strlit("Non-essential Production");
    assert("Production"@.len() != "Research & Development"@.len());
    assert("Production"@.len() != "Corporate"@.len());
    assert("Production"@.len() != "Non-essential Production"@.len());
    assert("Playground"@.len() != "Research & Development"@.len());
    assert("Playground"@.len() != "Corporate"@.len());
    assert("Playground"@.len() != "Non-essential Production"@.len());
    assert("Production"@[1] != "Playground"@[1]);
    assert("Research & Development"@.len() != "Corporate"@.len());
    assert("Research & Development"@.len() != "Non-essential Production"@.len());
    assert("Corporate"@.len() != "Non-essential Production"@.len());
}

} // verus!
