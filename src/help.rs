//! The help text: one aligned line per definition, then a sample invocation.
use vstd::prelude::*;
use crate::catalog::{ArgumentCatalog, CatalogModel, DefinitionModel};

verus! {

/// `n` spaces.
pub open spec fn spaces(n: nat) -> Seq<char> {
    Seq::new(n, |_i: int| ' ')
}

/// Length of the longest syntax among the first `k` definitions.
pub open spec fn widest_syntax(defs: Seq<DefinitionModel>, k: int) -> nat
    decreases k,
{
    if k <= 0 {
        0
    } else {
        let w = widest_syntax(defs, k - 1);
        if defs[k - 1].syntax.len() > w {
            defs[k - 1].syntax.len()
        } else {
            w
        }
    }
}

/// The syntax, padded with spaces to one past `width`, then the description.
pub open spec fn help_line(d: DefinitionModel, width: nat) -> Seq<char> {
    d.syntax + spaces((width - d.syntax.len() + 1) as nat) + d.description + "\n"@
}

/// The help lines of the first `k` definitions.
pub open spec fn help_lines(defs: Seq<DefinitionModel>, width: nat, k: int) -> Seq<char>
    decreases k,
{
    if k <= 0 {
        Seq::empty()
    } else {
        help_lines(defs, width, k - 1) + help_line(defs[k - 1], width)
    }
}

/// The full help text of a catalog.
pub open spec fn help_text(c: CatalogModel) -> Seq<char> {
    let defs = c.definitions;
    "Supported arguments:\n"@ + help_lines(defs, widest_syntax(defs, defs.len() as int), defs.len() as int)
        + "\n"@ + c.example
}

/// No syntax among the first `k` definitions is longer than their widest.
pub proof fn lemma_widest_syntax_bounds(defs: Seq<DefinitionModel>, k: int, j: int)
    requires
        0 <= j < k <= defs.len(),
    ensures
        defs[j].syntax.len() <= widest_syntax(defs, k),
    decreases k,
{
    if j < k - 1 {
        lemma_widest_syntax_bounds(defs, k - 1, j);
    }
}

impl ArgumentCatalog {
    /// Length of the longest syntax in the catalog.
    pub fn widest_syntax(&self) -> (r: usize)
        ensures
            r == widest_syntax(self@.definitions, self@.definitions.len() as int),
    {
        let ghost defs = self@.definitions;
        let mut w: usize = 0;
        let mut i: usize = 0;
        while i < self.definitions.len()
            invariant
                defs == self@.definitions,
                i <= self.definitions.len(),
                w == widest_syntax(defs, i as int),
            decreases self.definitions.len() - i,
        {
            let len = self.definitions[i].syntax.as_str().unicode_len();
            if len > w {
                w = len;
            }
            i = i + 1;
        }
        w
    }

    /// Renders the help text: a heading, one line per definition in catalog
    /// order with descriptions aligned one space past the longest syntax, a
    /// blank line and the sample invocation.
    pub fn help_text(&self) -> (r: String)
        ensures
            r@ == help_text(self@),
    {
        let ghost defs = self@.definitions;
        let width = self.widest_syntax();
        let mut text = String::from_str("Supported arguments:\n");
        let mut i: usize = 0;
        while i < self.definitions.len()
            invariant
                defs == self@.definitions,
                i <= self.definitions.len(),
                width == widest_syntax(defs, defs.len() as int),
                text@ == "Supported arguments:\n"@ + help_lines(defs, width as nat, i as int),
            decreases self.definitions.len() - i,
        {
            let d = &self.definitions[i];
            let ghost before = text@;
            proof {
                lemma_widest_syntax_bounds(defs, defs.len() as int, i as int);
                reveal_strlit(" ");
            }
            text.append(d.syntax.as_str());
            let pad = width - d.syntax.as_str().unicode_len();
            text.append(" ");
            assert(before + d.syntax@ + " "@ =~= before + d.syntax@ + spaces(1));
            let mut j: usize = 0;
            while j < pad
                invariant
                    j <= pad,
                    text@ == before + d.syntax@ + spaces((j + 1) as nat),
                    " "@ == seq![' '],
                decreases pad - j,
            {
                text.append(" ");
                assert(spaces((j + 1) as nat) + " "@ =~= spaces((j + 2) as nat));
                j = j + 1;
            }
            text.append(d.description.as_str());
            text.append("\n");
            assert(defs[i as int] == d@);
            assert(text@ =~= "Supported arguments:\n"@ + help_lines(defs, width as nat, i + 1));
            i = i + 1;
        }
        text.append("\n");
        text.append(self.example.as_str());
        text
    }
}

} // verus!
