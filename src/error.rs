//! Failures carried as a chain of causes, outermost first.
use vstd::prelude::*;

verus! {

/// A failure described by its causes, from the outermost context down to
/// the most specific cause.
#[derive(Debug, Clone, PartialEq, Eq)]
pub struct ErrorChain {
    pub causes: Vec<String>,
}

impl View for ErrorChain {
    type V = Seq<Seq<char>>;

    open spec fn view(&self) -> Seq<Seq<char>> {
        self.causes@.map_values(|c: String| c@)
    }
}

/// The causes written one after another, separated by ": ", the most
/// specific cause last.
pub open spec fn joined(causes: Seq<Seq<char>>) -> Seq<char>
    decreases causes.len(),
{
    if causes.len() == 0 {
        Seq::empty()
    } else if causes.len() == 1 {
        causes[0]
    } else {
        joined(causes.drop_last()) + ": "@ + causes.last()
    }
}

impl ErrorChain {
    /// A failure with a single cause.
    pub fn new(message: String) -> (e: ErrorChain)
        ensures
            e@ == seq![message@],
    {
        let mut causes: Vec<String> = Vec::new();
        causes.push(message);
        let e = ErrorChain { causes };
        assert(e@ =~= seq![message@]);
        e
    }

    /// Wraps the failure in an outer context.
    pub fn context(self, message: String) -> (e: ErrorChain)
        ensures
            e@ == seq![message@] + self@,
    {
        let mut causes = self.causes;
        causes.insert(0, message);
        let e = ErrorChain { causes };
        assert(e@ =~= seq![message@] + self@);
        e
    }

    /// The whole chain in one line, most specific cause last.
    pub fn render(&self) -> (r: String)
        ensures
            r@ == joined(self@),
    {
        let mut out = String::new();
        let mut i: usize = 0;
        while i < self.causes.len()
            invariant
                i <= self.causes@.len(),
                out@ == joined(self@.take(i as int)),
            decreases self.causes@.len() - i,
        {
            proof {
                assert(self@.take(i as int + 1).drop_last() =~= self@.take(i as int));
            }
            if i > 0 {
                out.append(": ");
            }
            out.append(self.causes[i].as_str());
            i = i + 1;
            proof {
                if i == 1 {
                    assert(out@ =~= joined(self@.take(i as int)));
                }
            }
        }
        assert(self@.take(i as int) =~= self@);
        out
    }
}

} // verus!
