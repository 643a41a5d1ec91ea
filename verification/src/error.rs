use vstd::prelude::*;

verus! {

/// Errors generated by libmad, one variant per `mad_error` value.
#[derive(Debug, Clone, Copy, PartialEq, Eq, Structural)]
pub enum MadError {
    /// no error (libmad's `MAD_ERROR_NONE`)
    NoError,
    /// input buffer too small (or eof)
    BufLen,
    /// invalid (null) buffer pointer
    BufPtr,
    /// not enough memory
    NoMem,
    /// lost synchronization
    LostSync,
    /// reserved header layer value
    BadLayer,
    /// forbidden bitrate value
    BadBitRate,
    /// reserved sample frequency value
    BadSampleRate,
    /// reserved emphasis value
    BadEmphasis,
    /// crc check failed
    BadCRC,
    /// forbidden bit allocation value
    BadBitAlloc,
    /// bad scalefactor index
    BadScaleFactor,
    /// bad bitrate/mode combination
    BadMode,
    /// bad frame length
    BadFrameLen,
    /// bad big_values count
    BadBigValues,
    /// reserved block_type
    BadBlockType,
    /// bad scalefactor selection info
    BadScFSI,
    /// bad main_data_begin pointer
    BadDataPtr,
    /// bad audio data length
    BadPart3Len,
    /// bad huffman table select
    BadHuffTable,
    /// huffman data overrun
    BadHuffData,
    /// incompatible block_type for joint stereo
    BadStereo,
}

impl MadError {
    /// The `mad_error` value that libmad uses for this error.
    pub open spec fn spec_code(&self) -> u32 {
        match self {
            MadError::NoError => 0x0000,
            MadError::BufLen => 0x0001,
            MadError::BufPtr => 0x0002,
            MadError::NoMem => 0x0031,
            MadError::LostSync => 0x0101,
            MadError::BadLayer => 0x0102,
            MadError::BadBitRate => 0x0103,
            MadError::BadSampleRate => 0x0104,
            MadError::BadEmphasis => 0x0105,
            MadError::BadCRC => 0x0201,
            MadError::BadBitAlloc => 0x0211,
            MadError::BadScaleFactor => 0x0221,
            MadError::BadMode => 0x0222,
            MadError::BadFrameLen => 0x0231,
            MadError::BadBigValues => 0x0232,
            MadError::BadBlockType => 0x0233,
            MadError::BadScFSI => 0x0234,
            MadError::BadDataPtr => 0x0235,
            MadError::BadPart3Len => 0x0236,
            MadError::BadHuffTable => 0x0237,
            MadError::BadHuffData => 0x0238,
            MadError::BadStereo => 0x0239,
        }
    }

    /// The error that libmad reports with the value `code`, if there is one.
    pub open spec fn spec_from_code(code: u32) -> Option<MadError> {
        if exists|e: MadError| e.spec_code() == code {
            Some(choose|e: MadError| e.spec_code() == code)
        } else {
            None
        }
    }

    /// The `mad_error` value of this error.
    #[verifier::when_used_as_spec(spec_code)]
    pub fn code(&self) -> (c: u32)
        ensures
            c == self.spec_code(),
    {
        match self {
            MadError::NoError => 0x0000,
            MadError::BufLen => 0x0001,
            MadError::BufPtr => 0x0002,
            MadError::NoMem => 0x0031,
            MadError::LostSync => 0x0101,
            MadError::BadLayer => 0x0102,
            MadError::BadBitRate => 0x0103,
            MadError::BadSampleRate => 0x0104,
            MadError::BadEmphasis => 0x0105,
            MadError::BadCRC => 0x0201,
            MadError::BadBitAlloc => 0x0211,
            MadError::BadScaleFactor => 0x0221,
            MadError::BadMode => 0x0222,
            MadError::BadFrameLen => 0x0231,
            MadError::BadBigValues => 0x0232,
            MadError::BadBlockType => 0x0233,
            MadError::BadScFSI => 0x0234,
            MadError::BadDataPtr => 0x0235,
            MadError::BadPart3Len => 0x0236,
            MadError::BadHuffTable => 0x0237,
            MadError::BadHuffData => 0x0238,
            MadError::BadStereo => 0x0239,
        }
    }

    /// The error that a `mad_error` value stands for; `None` for a value that
    /// libmad does not define.
    pub fn from_code(code: u32) -> (r: Option<MadError>)
        ensures
            r == Self::spec_from_code(code),
    {
        let r = match code {
            0x0000 => Some(MadError::NoError),
            0x0001 => Some(MadError::BufLen),
            0x0002 => Some(MadError::BufPtr),
            0x0031 => Some(MadError::NoMem),
            0x0101 => Some(MadError::LostSync),
            0x0102 => Some(MadError::BadLayer),
            0x0103 => Some(MadError::BadBitRate),
            0x0104 => Some(MadError::BadSampleRate),
            0x0105 => Some(MadError::BadEmphasis),
            0x0201 => Some(MadError::BadCRC),
            0x0211 => Some(MadError::BadBitAlloc),
            0x0221 => Some(MadError::BadScaleFactor),
            0x0222 => Some(MadError::BadMode),
            0x0231 => Some(MadError::BadFrameLen),
            0x0232 => Some(MadError::BadBigValues),
            0x0233 => Some(MadError::BadBlockType),
            0x0234 => Some(MadError::BadScFSI),
            0x0235 => Some(MadError::BadDataPtr),
            0x0236 => Some(MadError::BadPart3Len),
            0x0237 => Some(MadError::BadHuffTable),
            0x0238 => Some(MadError::BadHuffData),
            0x0239 => Some(MadError::BadStereo),
            _ => None,
        };
        proof {
            match r {
                Some(e) => {
                    assert(e.spec_code() == code);
                    lemma_code_injective(e);
                    let f = choose|f: MadError| f.spec_code() == code;
                    assert(f.spec_code() == e.spec_code());
                },
                None => {
                    assert(forall|e: MadError| e.spec_code() != code);
                },
            }
        }
        r
    }
}

/// Distinct errors have distinct `mad_error` values.
pub proof fn lemma_code_injective(e: MadError)
    ensures
        forall|f: MadError| #[trigger] f.spec_code() == e.spec_code() ==> f == e,
{
}

/// Decoding the value of an error gives that error back, and an error that a
/// value decodes to has that value.
pub proof fn law_code_roundtrip(e: MadError, code: u32)
    ensures
        MadError::spec_from_code(e.spec_code()) == Some(e),
        MadError::spec_from_code(code) matches Some(f) ==> f.spec_code() == code,
{
    lemma_code_injective(e);
}

} // verus!
