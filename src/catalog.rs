//! The argument catalog: the fixed, ordered table of accepted flags.
use vstd::prelude::*;

verus! {

/// What the scanner does when it meets a flag.
#[derive(PartialEq, Eq, Structural, Clone, Copy, Debug)]
pub enum ArgumentRole {
    /// Stops the scan and answers with the help text.
    Help,
    /// Stops the scan and answers with the version string.
    Version,
    /// Records the values that follow the flag.
    Value,
}

/// One accepted flag.
pub struct ArgumentDefinition {
    /// Canonical long form, such as `--config`.
    pub name: String,
    /// Usage fragment shown in the help text.
    pub syntax: String,
    /// Optional short alias, such as `-c`.
    pub shorthand: Option<String>,
    /// One-line explanation shown in the help text.
    pub description: String,
    /// Number of value tokens that follow the flag.
    pub number_of_args: usize,
    /// Whether omitting the flag is an error.
    pub is_required: bool,
    /// What the scanner does when it meets the flag.
    pub role: ArgumentRole,
}

/// Mathematical model of an [`ArgumentDefinition`].
pub struct DefinitionModel {
    pub name: Seq<char>,
    pub syntax: Seq<char>,
    pub shorthand: Option<Seq<char>>,
    pub description: Seq<char>,
    pub arity: nat,
    pub required: bool,
    pub role: ArgumentRole,
}

impl View for ArgumentDefinition {
    type V = DefinitionModel;

    open spec fn view(&self) -> DefinitionModel {
        DefinitionModel {
            name: self.name@,
            syntax: self.syntax@,
            shorthand: self.shorthand.deep_view(),
            description: self.description@,
            arity: self.number_of_args as nat,
            required: self.is_required,
            role: self.role,
        }
    }
}

/// The table of accepted flags, in the order that the help text lists them.
pub struct ArgumentCatalog {
    pub definitions: Vec<ArgumentDefinition>,
    /// Last line of the help text, showing a sample invocation.
    pub example: String,
    /// Whether an invocation without any token is an error.
    pub error_on_empty: bool,
}

/// Mathematical model of an [`ArgumentCatalog`].
pub struct CatalogModel {
    pub definitions: Seq<DefinitionModel>,
    pub example: Seq<char>,
    pub error_on_empty: bool,
}

impl View for ArgumentCatalog {
    type V = CatalogModel;

    open spec fn view(&self) -> CatalogModel {
        CatalogModel {
            definitions: self.definitions@.map_values(|d: ArgumentDefinition| d@),
            example: self.example@,
            error_on_empty: self.error_on_empty,
        }
    }
}

/// A token in long form starts with two dashes.
pub open spec fn is_long_form(t: Seq<char>) -> bool {
    t.len() >= 2 && t[0] == '-' && t[1] == '-'
}

/// A token in short form starts with one dash.
pub open spec fn is_short_form(t: Seq<char>) -> bool {
    t.len() >= 1 && t[0] == '-'
}

/// The token selects the definition: by exact name for a long-form token,
/// by exact shorthand for a short-form one.
pub open spec fn selects(d: DefinitionModel, t: Seq<char>) -> bool {
    if is_long_form(t) {
        d.name == t
    } else if is_short_form(t) {
        d.shorthand == Some(t)
    } else {
        false
    }
}

/// The token is the definition's name or its shorthand.
pub open spec fn names(d: DefinitionModel, t: Seq<char>) -> bool {
    d.name == t || d.shorthand == Some(t)
}

/// Index of the first definition at or after `i` that the token selects.
pub open spec fn lookup_from(defs: Seq<DefinitionModel>, t: Seq<char>, i: int) -> Option<int>
    decreases defs.len() - i,
{
    if i < 0 || i >= defs.len() {
        None
    } else if selects(defs[i], t) {
        Some(i)
    } else {
        lookup_from(defs, t, i + 1)
    }
}

/// Index of the first definition that the token selects.
pub open spec fn lookup(defs: Seq<DefinitionModel>, t: Seq<char>) -> Option<int> {
    lookup_from(defs, t, 0)
}

impl DefinitionModel {
    /// The definition is reachable from the command line and its flags
    /// behave as the scanner expects.
    pub open spec fn wf(self) -> bool {
        &&& is_long_form(self.name)
        &&& (self.shorthand matches Some(s) ==> is_short_form(s) && !is_long_form(s))
        &&& (self.role != ArgumentRole::Value ==> self.arity == 0)
    }
}

impl CatalogModel {
    /// Every definition is well formed; names are unique, and so are the
    /// shorthands that are present.
    pub open spec fn wf(self) -> bool {
        &&& forall|i: int| 0 <= i < self.definitions.len() ==> #[trigger] self.definitions[i].wf()
        &&& forall|i: int, j: int|
            0 <= i < self.definitions.len() && 0 <= j < self.definitions.len() && i != j
                ==> #[trigger] self.definitions[i].name != #[trigger] self.definitions[j].name
        &&& forall|i: int, j: int|
            0 <= i < self.definitions.len() && 0 <= j < self.definitions.len() && i != j
                && (#[trigger] self.definitions[i]).shorthand is Some
                ==> self.definitions[i].shorthand != (#[trigger] self.definitions[j]).shorthand
    }
}

/// Whether `t` starts with a dash.
fn starts_with_dash(t: &str) -> (r: bool)
    ensures
        r == is_short_form(t@),
{
    t.unicode_len() >= 1 && t.get_char(0) == '-'
}

/// Whether `t` starts with two dashes.
fn starts_with_two_dashes(t: &str) -> (r: bool)
    ensures
        r == is_long_form(t@),
{
    t.unicode_len() >= 2 && t.get_char(0) == '-' && t.get_char(1) == '-'
}

impl ArgumentDefinition {
    /// Whether the token selects this definition.
    pub fn is_selected_by(&self, t: &String) -> (r: bool)
        ensures
            r == selects(self@, t@),
    {
        if starts_with_two_dashes(t.as_str()) {
            self.name == *t
        } else if starts_with_dash(t.as_str()) {
            match &self.shorthand {
                Some(s) => *s == *t,
                None => false,
            }
        } else {
            false
        }
    }

    /// Whether the token is this definition's name or shorthand.
    pub fn is_named_by(&self, t: &String) -> (r: bool)
        ensures
            r == names(self@, t@),
    {
        if self.name == *t {
            true
        } else {
            match &self.shorthand {
                Some(s) => *s == *t,
                None => false,
            }
        }
    }
}

impl ArgumentCatalog {
    /// Finds the first definition that the token selects.
    pub fn find(&self, t: &String) -> (r: Option<usize>)
        ensures
            r matches Some(k) ==> k < self.definitions.len()
                && lookup(self@.definitions, t@) == Some(k as int),
            r is None ==> lookup(self@.definitions, t@) is None,
    {
        let ghost defs = self@.definitions;
        let mut i: usize = 0;
        while i < self.definitions.len()
            invariant
                defs == self@.definitions,
                0 <= i <= self.definitions.len(),
                lookup(defs, t@) == lookup_from(defs, t@, i as int),
            decreases self.definitions.len() - i,
        {
            if self.definitions[i].is_selected_by(t) {
                return Some(i);
            }
            i = i + 1;
        }
        None
    }
}

} // verus!
