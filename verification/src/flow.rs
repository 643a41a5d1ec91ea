use vstd::prelude::*;

verus! {

/// libmad callbacks return MadFlow values, which are used to control the decoding process
#[derive(Debug, Clone, Copy, PartialEq, Eq, Structural)]
pub enum MadFlow {
    /// continue normally
    Continue,
    /// stop decoding normally
    Stop,
    /// stop decoding and signal an error
    Break,
    /// ignore the current frame
    Ignore,
}

impl MadFlow {
    /// The `mad_flow` value that libmad expects for this flow.
    pub open spec fn spec_code(&self) -> u32 {
        match self {
            MadFlow::Continue => 0x0000,
            MadFlow::Stop => 0x0010,
            MadFlow::Break => 0x0011,
            MadFlow::Ignore => 0x0020,
        }
    }

    /// The `mad_flow` value of this flow.
    #[verifier::when_used_as_spec(spec_code)]
    pub fn code(&self) -> (c: u32)
        ensures
            c == self.spec_code(),
    {
        match self {
            MadFlow::Continue => 0x0000,
            MadFlow::Stop => 0x0010,
            MadFlow::Break => 0x0011,
            MadFlow::Ignore => 0x0020,
        }
    }
}

} // verus!
