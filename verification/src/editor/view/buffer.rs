use vstd::prelude::*;
use vstd::string::StringExecFns;

verus! {

/// The starting contents of the line source: a fixed pair of greeting lines,
/// until file loading exists.
pub open spec fn initial_lines() -> Seq<Seq<char>> {
    seq!["Hello, World!"@, "hecto is text editor made by Rust(full scratch)"@]
}

/// The read-only line source the renderer draws from: an ordered sequence of
/// text lines of any finite length, including zero.
pub struct Buffer {
    pub lines: Vec<String>,
}

impl View for Buffer {
    type V = Seq<Seq<char>>;

    open spec fn view(&self) -> Seq<Seq<char>> {
        self.lines.deep_view()
    }
}

impl Default for Buffer {
    fn default() -> (b: Buffer)
        ensures
            b@ == initial_lines(),
    {
        let mut lines: Vec<String> = Vec::new();
        lines.push(String::from_str("Hello, World!"));
        lines.push(String::from_str("hecto is text editor made by Rust(full scratch)"));
        let b = Buffer { lines };
        proof {
            assert(b@ =~= initial_lines());
        }
        b
    }
}

} // verus!
