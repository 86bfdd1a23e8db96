//! The scanner: one left-to-right pass over the tokens against a catalog.
use vstd::prelude::*;
use crate::catalog::{
    lookup, names, ArgumentCatalog, ArgumentDefinition, ArgumentRole, CatalogModel,
    DefinitionModel,
};
use crate::help::help_text;
use crate::outcome::{
    strings_view, values_view, ErrorModel, OutcomeModel, ParseError, ParseOutcome,
};

verus! {

/// No value recorded for any of `n` definitions.
pub open spec fn no_values(n: nat) -> Seq<Option<Seq<Seq<char>>>> {
    Seq::new(n, |_i: int| None)
}

/// The definition's name or shorthand occurs among the tokens after the
/// program name.
pub open spec fn appears(d: DefinitionModel, args: Seq<Seq<char>>) -> bool {
    exists|j: int| 1 <= j < args.len() && names(d, #[trigger] args[j])
}

/// Names of the required definitions among the first `k` that do not appear
/// in the tokens, in catalog order.
pub open spec fn missing_required(defs: Seq<DefinitionModel>, args: Seq<Seq<char>>, k: int) -> Seq<
    Seq<char>,
>
    decreases k,
{
    if k <= 0 {
        Seq::empty()
    } else {
        let rest = missing_required(defs, args, k - 1);
        let d = defs[k - 1];
        if d.required && !appears(d, args) {
            rest.push(d.name)
        } else {
            rest
        }
    }
}

/// Names of all required definitions that do not appear in the tokens.
pub open spec fn all_missing(c: CatalogModel, args: Seq<Seq<char>>) -> Seq<Seq<char>> {
    missing_required(c.definitions, args, c.definitions.len() as int)
}

/// The outcome once every token has been consumed.
pub open spec fn finish(
    c: CatalogModel,
    args: Seq<Seq<char>>,
    vals: Seq<Option<Seq<Seq<char>>>>,
) -> OutcomeModel {
    let missing = all_missing(c, args);
    if missing.len() > 0 {
        OutcomeModel::Error(ErrorModel::MissingRequired(missing))
    } else {
        OutcomeModel::Parsed(vals)
    }
}

/// The outcome of scanning from cursor `i` with the values recorded so far.
pub open spec fn scan(
    c: CatalogModel,
    args: Seq<Seq<char>>,
    version: Seq<char>,
    i: int,
    vals: Seq<Option<Seq<Seq<char>>>>,
) -> OutcomeModel
    decreases args.len() - i,
{
    if i >= args.len() {
        finish(c, args, vals)
    } else {
        match lookup(c.definitions, args[i]) {
            None => OutcomeModel::Error(ErrorModel::UnsupportedArgument(args[i])),
            Some(k) => {
                let d = c.definitions[k];
                if d.arity > 0 && i + d.arity >= args.len() {
                    OutcomeModel::Error(ErrorModel::InsufficientValues(args[i]))
                } else if d.role == ArgumentRole::Help {
                    OutcomeModel::Message(help_text(c))
                } else if d.role == ArgumentRole::Version {
                    OutcomeModel::Message(version)
                } else {
                    scan(
                        c,
                        args,
                        version,
                        i + 1 + d.arity,
                        vals.update(k, Some(args.subrange(i + 1, i + 1 + d.arity))),
                    )
                }
            },
        }
    }
}

/// The outcome of parsing the tokens, the first of which is the program name.
pub open spec fn parse(c: CatalogModel, args: Seq<Seq<char>>, version: Seq<char>) -> OutcomeModel {
    if args.len() <= 1 && c.error_on_empty {
        OutcomeModel::Error(ErrorModel::NoArguments)
    } else {
        scan(c, args, version, 1, no_values(c.definitions.len()))
    }
}

impl ArgumentDefinition {
    /// Whether the definition's name or shorthand occurs among the tokens
    /// after the program name.
    pub fn appears_in(&self, args: &Vec<String>) -> (r: bool)
        ensures
            r == appears(self@, strings_view(args@)),
    {
        let ghost a = strings_view(args@);
        let mut j: usize = 1;
        while j < args.len()
            invariant
                a == strings_view(args@),
                1 <= j,
                forall|m: int| 1 <= m < j && m < a.len() ==> !names(self@, #[trigger] a[m]),
            decreases args.len() - j,
        {
            if self.is_named_by(&args[j]) {
                assert(names(self@, a[j as int]));
                return true;
            }
            j = j + 1;
        }
        false
    }
}

impl ArgumentCatalog {
    /// Names of the required definitions that do not appear among the
    /// tokens after the program name, in catalog order.
    pub fn missing_required(&self, args: &Vec<String>) -> (r: Vec<String>)
        ensures
            strings_view(r@) == all_missing(self@, strings_view(args@)),
    {
        let ghost defs = self@.definitions;
        let ghost a = strings_view(args@);
        let mut missing: Vec<String> = Vec::new();
        let mut k: usize = 0;
        while k < self.definitions.len()
            invariant
                defs == self@.definitions,
                a == strings_view(args@),
                k <= self.definitions.len(),
                strings_view(missing@) == missing_required(defs, a, k as int),
            decreases self.definitions.len() - k,
        {
            let d = &self.definitions[k];
            assert(defs[k as int] == d@);
            if d.is_required && !d.appears_in(args) {
                let name = d.name.clone();
                missing.push(name);
                assert(strings_view(missing@) =~= missing_required(defs, a, k as int).push(
                    d.name@,
                ));
            }
            k = k + 1;
        }
        missing
    }

    /// Parses the tokens, the first of which is the program name, in one
    /// left-to-right pass; `version` is the text that the version flag shows.
    pub fn parse(&self, args: &Vec<String>, version: &str) -> (r: ParseOutcome)
        ensures
            r@ == parse(self@, strings_view(args@), version@),
            r matches ParseOutcome::Parsed(v) ==> v@.len() == self.definitions@.len(),
    {
        let ghost c = self@;
        let ghost a = strings_view(args@);
        if args.len() <= 1 && self.error_on_empty {
            return ParseOutcome::Error(ParseError::NoArguments);
        }
        let mut values: Vec<Option<Vec<String>>> = Vec::new();
        let mut k: usize = 0;
        while k < self.definitions.len()
            invariant
                k <= self.definitions.len(),
                values@.len() == k,
                forall|m: int| 0 <= m < k ==> values@[m] is None,
            decreases self.definitions.len() - k,
        {
            values.push(None);
            k = k + 1;
        }
        assert(values_view(values@) =~= no_values(c.definitions.len()));
        let mut i: usize = 1;
        while i < args.len()
            invariant
                c == self@,
                a == strings_view(args@),
                1 <= i,
                values@.len() == self.definitions.len(),
                parse(c, a, version@) == scan(c, a, version@, i as int, values_view(values@)),
            decreases args.len() - i,
        {
            let tok = &args[i];
            assert(a[i as int] == tok@);
            match self.find(tok) {
                None => {
                    return ParseOutcome::Error(ParseError::UnsupportedArgument(tok.clone()));
                },
                Some(k) => {
                    let d = &self.definitions[k];
                    assert(c.definitions[k as int] == d@);
                    let n = d.number_of_args;
                    if n > 0 && n >= args.len() - i {
                        return ParseOutcome::Error(ParseError::InsufficientValues(tok.clone()));
                    }
                    match d.role {
                        ArgumentRole::Help => {
                            return ParseOutcome::Message(self.help_text());
                        },
                        ArgumentRole::Version => {
                            return ParseOutcome::Message(String::from_str(version));
                        },
                        ArgumentRole::Value => {},
                    }
                    let mut taken: Vec<String> = Vec::new();
                    let mut j: usize = 0;
                    while j < n
                        invariant
                            a == strings_view(args@),
                            i + n < args.len(),
                            j <= n,
                            strings_view(taken@) == a.subrange(i + 1, i + 1 + j),
                        decreases n - j,
                    {
                        let v = args[i + 1 + j].clone();
                        assert(a[i + 1 + j] == v@);
                        let ghost before = taken@;
                        taken.push(v);
                        assert(strings_view(taken@) =~= strings_view(before).push(v@));
                        assert(strings_view(taken@) =~= a.subrange(i + 1, i + 1 + j + 1));
                        j = j + 1;
                    }
                    let ghost old_values = values@;
                    values.set(k, Some(taken));
                    assert(values_view(values@) =~= values_view(old_values).update(
                        k as int,
                        Some(a.subrange(i + 1, i + 1 + n)),
                    ));
                    i = i + 1 + n;
                },
            }
        }
        let missing = self.missing_required(args);
        if missing.len() > 0 {
            ParseOutcome::Error(ParseError::MissingRequired(missing))
        } else {
            ParseOutcome::Parsed(values)
        }
    }
}

} // verus!
