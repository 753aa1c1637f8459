use vstd::prelude::*;

verus! {

/// The read-only configuration of the decoder: the names of services or
/// process kinds whose lines are noise and must be skipped without decoding.
pub struct ParserConfig {
    pub process_noise: Vec<String>,
}

impl ParserConfig {
    /// The noise set as a sequence of character sequences, for contracts.
    pub open spec fn noise(&self) -> Seq<Seq<char>> {
        self.process_noise.deep_view()
    }
}

} // verus!
