//! Properties that hold of every catalog, stated over the scanner's model.
use vstd::prelude::*;
use crate::catalog::{
    is_long_form, lookup, lookup_from, names, selects, ArgumentRole, CatalogModel,
    DefinitionModel,
};
use crate::help::help_text;
use crate::outcome::{ErrorModel, OutcomeModel};
use crate::scanner::{all_missing, appears, missing_required, no_values, parse, scan};

verus! {

/// A token that selects definition `k` and no other is looked up as `k`.
proof fn lemma_lookup_single(defs: Seq<DefinitionModel>, t: Seq<char>, k: int, i: int)
    requires
        0 <= i <= k < defs.len(),
        selects(defs[k], t),
        forall|j: int| 0 <= j < defs.len() && j != k ==> !selects(#[trigger] defs[j], t),
    ensures
        lookup_from(defs, t, i) == Some(k),
    decreases k - i,
{
    if i < k {
        lemma_lookup_single(defs, t, k, i + 1);
    }
}

/// A token that selects no definition from `i` on is looked up as nothing.
proof fn lemma_lookup_none(defs: Seq<DefinitionModel>, t: Seq<char>, i: int)
    requires
        0 <= i,
        forall|j: int| 0 <= j < defs.len() ==> !selects(#[trigger] defs[j], t),
    ensures
        lookup_from(defs, t, i) is None,
    decreases defs.len() - i,
{
    if i < defs.len() {
        lemma_lookup_none(defs, t, i + 1);
    }
}

/// In a well-formed catalog, the name or shorthand of definition `k` is
/// looked up as `k`.
proof fn lemma_lookup_own_name(c: CatalogModel, t: Seq<char>, k: int)
    requires
        c.wf(),
        0 <= k < c.definitions.len(),
        names(c.definitions[k], t),
    ensures
        lookup(c.definitions, t) == Some(k),
{
    let defs = c.definitions;
    assert(defs[k].wf());
    assert forall|j: int| 0 <= j < defs.len() && j != k implies !selects(#[trigger] defs[j], t) by {
        if defs[k].name == t {
            assert(defs[j].name != defs[k].name);
        } else {
            assert(!is_long_form(t));
            assert(defs[k].shorthand is Some);
            assert(defs[k].shorthand != defs[j].shorthand);
        }
    }
    lemma_lookup_single(defs, t, k, 0);
}

/// A name that is required and absent among the first `m` definitions is
/// listed among their missing names.
proof fn lemma_missing_listed(defs: Seq<DefinitionModel>, args: Seq<Seq<char>>, m: int, k: int)
    requires
        0 <= k < m <= defs.len(),
        defs[k].required,
        !appears(defs[k], args),
    ensures
        missing_required(defs, args, m).contains(defs[k].name),
    decreases m,
{
    let rest = missing_required(defs, args, m - 1);
    if k < m - 1 {
        lemma_missing_listed(defs, args, m - 1, k);
        let i = choose|i: int| 0 <= i < rest.len() && rest[i] == defs[k].name;
        let d = defs[m - 1];
        if d.required && !appears(d, args) {
            assert(rest.push(d.name)[i] == defs[k].name);
        }
    } else {
        assert(missing_required(defs, args, m)[rest.len() as int] == defs[k].name);
    }
}

/// A scan ends in success only when no required flag is missing, and reports
/// missing flags only as the full list of them.
proof fn lemma_scan_end(
    c: CatalogModel,
    args: Seq<Seq<char>>,
    version: Seq<char>,
    i: int,
    vals: Seq<Option<Seq<Seq<char>>>>,
)
    ensures
        scan(c, args, version, i, vals) is Parsed ==> all_missing(c, args).len() == 0,
        scan(c, args, version, i, vals) matches OutcomeModel::Error(ErrorModel::MissingRequired(ns))
            ==> ns == all_missing(c, args),
    decreases args.len() - i,
{
    if i < args.len() {
        if let Some(k) = lookup(c.definitions, args[i]) {
            let d = c.definitions[k];
            if !(d.arity > 0 && i + d.arity >= args.len()) && d.role == ArgumentRole::Value {
                lemma_scan_end(
                    c,
                    args,
                    version,
                    i + 1 + d.arity,
                    vals.update(k, Some(args.subrange(i + 1, i + 1 + d.arity))),
                );
            }
        }
    }
}

/// When the catalog forbids empty invocations, an invocation with nothing
/// after the program name fails with `NoArguments`, whether or not any flag
/// is required.
pub proof fn lemma_empty_invocation_rejected(c: CatalogModel, args: Seq<Seq<char>>, version: Seq<char>)
    requires
        c.error_on_empty,
        args.len() <= 1,
    ensures
        parse(c, args, version) == OutcomeModel::Error(ErrorModel::NoArguments),
{
}

/// Wherever the scan meets a help flag, it stops and answers with the full
/// help text, whatever tokens follow.
pub proof fn lemma_help_short_circuits(
    c: CatalogModel,
    args: Seq<Seq<char>>,
    version: Seq<char>,
    i: int,
    vals: Seq<Option<Seq<Seq<char>>>>,
    k: int,
)
    requires
        c.wf(),
        0 <= k < c.definitions.len(),
        c.definitions[k].role == ArgumentRole::Help,
        0 <= i < args.len(),
        names(c.definitions[k], args[i]),
    ensures
        scan(c, args, version, i, vals) == OutcomeModel::Message(help_text(c)),
{
    lemma_lookup_own_name(c, args[i], k);
    assert(c.definitions[k].wf());
}

/// A help flag right after the program name answers with the full help
/// text, whatever tokens follow, malformed or not.
pub proof fn lemma_help_first(
    c: CatalogModel,
    program: Seq<char>,
    flag: Seq<char>,
    rest: Seq<Seq<char>>,
    version: Seq<char>,
    k: int,
)
    requires
        c.wf(),
        0 <= k < c.definitions.len(),
        c.definitions[k].role == ArgumentRole::Help,
        names(c.definitions[k], flag),
    ensures
        parse(c, seq![program, flag] + rest, version) == OutcomeModel::Message(help_text(c)),
{
    let args = seq![program, flag] + rest;
    assert(args[1] == flag);
    lemma_help_short_circuits(c, args, version, 1, no_values(c.definitions.len()), k);
}

/// Wherever the scan meets a token that is neither the name nor the
/// shorthand of any definition, it fails naming that token.
pub proof fn lemma_unknown_token_rejected(
    c: CatalogModel,
    args: Seq<Seq<char>>,
    version: Seq<char>,
    i: int,
    vals: Seq<Option<Seq<Seq<char>>>>,
)
    requires
        0 <= i < args.len(),
        forall|k: int| 0 <= k < c.definitions.len() ==> !names(#[trigger] c.definitions[k], args[i]),
    ensures
        scan(c, args, version, i, vals) == OutcomeModel::Error(
            ErrorModel::UnsupportedArgument(args[i]),
        ),
{
    assert forall|j: int| 0 <= j < c.definitions.len() implies !selects(
        #[trigger] c.definitions[j],
        args[i],
    ) by {
        assert(!names(c.definitions[j], args[i]));
    }
    lemma_lookup_none(c.definitions, args[i], 0);
}

/// An unknown token right after the program name fails naming that token,
/// whatever follows.
pub proof fn lemma_unknown_first_rejected(
    c: CatalogModel,
    program: Seq<char>,
    token: Seq<char>,
    rest: Seq<Seq<char>>,
    version: Seq<char>,
)
    requires
        forall|k: int| 0 <= k < c.definitions.len() ==> !names(#[trigger] c.definitions[k], token),
    ensures
        parse(c, seq![program, token] + rest, version) == OutcomeModel::Error(
            ErrorModel::UnsupportedArgument(token),
        ),
{
    let args = seq![program, token] + rest;
    assert(args[1] == token);
    lemma_unknown_token_rejected(c, args, version, 1, no_values(c.definitions.len()));
}

/// A flag that takes values, met as the last token, fails for want of
/// values.
pub proof fn lemma_trailing_flag_rejected(
    c: CatalogModel,
    args: Seq<Seq<char>>,
    version: Seq<char>,
    vals: Seq<Option<Seq<Seq<char>>>>,
    k: int,
)
    requires
        c.wf(),
        0 <= k < c.definitions.len(),
        c.definitions[k].arity > 0,
        args.len() > 0,
        names(c.definitions[k], args.last()),
    ensures
        scan(c, args, version, args.len() - 1, vals) == OutcomeModel::Error(
            ErrorModel::InsufficientValues(args.last()),
        ),
{
    lemma_lookup_own_name(c, args.last(), k);
}

/// A flag that takes values, given alone after the program name, fails for
/// want of values.
pub proof fn lemma_lone_flag_rejected(
    c: CatalogModel,
    program: Seq<char>,
    flag: Seq<char>,
    version: Seq<char>,
    k: int,
)
    requires
        c.wf(),
        0 <= k < c.definitions.len(),
        c.definitions[k].arity > 0,
        names(c.definitions[k], flag),
    ensures
        parse(c, seq![program, flag], version) == OutcomeModel::Error(
            ErrorModel::InsufficientValues(flag),
        ),
{
    let args = seq![program, flag];
    lemma_trailing_flag_rejected(c, args, version, no_values(c.definitions.len()), k);
}

/// An invocation that omits a required flag never succeeds; where it fails
/// for missing flags, it lists the name of every required flag that was
/// omitted, and no other.
pub proof fn lemma_missing_required_reported(
    c: CatalogModel,
    args: Seq<Seq<char>>,
    version: Seq<char>,
    k: int,
)
    requires
        0 <= k < c.definitions.len(),
        c.definitions[k].required,
        !appears(c.definitions[k], args),
    ensures
        !(parse(c, args, version) is Parsed),
        all_missing(c, args).contains(c.definitions[k].name),
        parse(c, args, version) matches OutcomeModel::Error(ErrorModel::MissingRequired(ns))
            ==> ns == all_missing(c, args),
        forall|j: int|
            0 <= j < c.definitions.len() && (#[trigger] c.definitions[j]).required && !appears(
                c.definitions[j],
                args,
            ) ==> all_missing(c, args).contains(c.definitions[j].name),
{
    let n = c.definitions.len() as int;
    assert forall|j: int|
        0 <= j < c.definitions.len() && (#[trigger] c.definitions[j]).required && !appears(
            c.definitions[j],
            args,
        ) implies all_missing(c, args).contains(c.definitions[j].name) by {
        lemma_missing_listed(c.definitions, args, n, j);
    }
    lemma_missing_listed(c.definitions, args, n, k);
    if !(args.len() <= 1 && c.error_on_empty) {
        lemma_scan_end(c, args, version, 1, no_values(c.definitions.len()));
    }
}

/// Parsing keeps no state between calls: equal inputs give equal outcomes.
pub proof fn lemma_parse_deterministic(
    c: CatalogModel,
    args1: Seq<Seq<char>>,
    args2: Seq<Seq<char>>,
    version: Seq<char>,
)
    requires
        args1 == args2,
    ensures
        parse(c, args1, version) == parse(c, args2, version),
{
}

} // verus!
