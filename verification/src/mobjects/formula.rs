//! Mathematical formulas, rendered by handing a small typst document to an
//! external compiler. The document's construction is done here; writing it
//! out and invoking the compiler are the caller's side.

use vstd::prelude::*;

verus! {

/// The page header of every generated typst document: an auto-sized page
/// with no margins, so the rendered formula is cropped tight.
pub const TYPST_HEADER: &'static str = "#set page(\n    width: auto,\n    height: auto,\n    margin: (x: 0cm, y: 0cm)\n)";

/// A formula, as typst display-math source text.
pub struct Formula {
    formula_text: String,
}

impl Formula {
    /// The formula's source text.
    pub closed spec fn spec_text(self) -> Seq<char> {
        self.formula_text@
    }

    /// A formula from its typst math source text.
    pub fn new(formula_text: String) -> (f: Self)
        ensures
            f.spec_text() == formula_text@,
    {
        Formula { formula_text }
    }

    /// The whole typst document for this formula: the page header, then the
    /// formula in display-math delimiters.
    pub fn typst_source(&self) -> (r: String)
        ensures
            r@ == TYPST_HEADER@ + "\n$ "@ + self.spec_text() + " $"@,
    {
        let mut s = String::from_str(TYPST_HEADER);
        s.append("\n$ ");
        s.append(self.formula_text.as_str());
        s.append(" $");
        s
    }
}

} // verus!
