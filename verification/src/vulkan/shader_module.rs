use vstd::prelude::*;

verus! {

/// The first word of every SPIR-V module.
pub const SPIRV_MAGIC: u32 = 0x0723_0203;

/// Why bytes are not a SPIR-V module.
#[derive(Clone, Copy, Debug, PartialEq, Eq)]
pub enum InvalidShader {
    /// There are no bytes.
    EmptySource,
    /// The number of bytes is not a multiple of four.
    SizeIsNotMultipleOfFour,
    /// The first word is not the SPIR-V magic number.
    WrongMagic { found: u32 },
}

/// The word made of the four bytes of `code` from `4 * i` on, least significant first.
pub open spec fn word_at(code: Seq<u8>, i: int) -> int {
    code[4 * i] + 256 * code[4 * i + 1] + 65536 * code[4 * i + 2] + 16777216 * code[4 * i + 3]
}

/// The words of `code`, four bytes each, least significant byte first.
pub open spec fn spec_words(code: Seq<u8>) -> Seq<u32> {
    Seq::new(code.len() / 4, |i: int| word_at(code, i) as u32)
}

/// What checking `code` as SPIR-V gives: an error for no bytes, then for a length that is
/// not a multiple of four, then for a first word that is not the magic number; else the
/// words.
pub open spec fn spec_check_spirv(code: Seq<u8>) -> Result<Seq<u32>, InvalidShader> {
    if code.len() == 0 {
        Err(InvalidShader::EmptySource)
    } else if code.len() % 4 != 0 {
        Err(InvalidShader::SizeIsNotMultipleOfFour)
    } else if word_at(code, 0) != SPIRV_MAGIC {
        Err(InvalidShader::WrongMagic { found: word_at(code, 0) as u32 })
    } else {
        Ok(spec_words(code))
    }
}

fn read_word(code: &[u8], i: usize) -> (r: u32)
    requires
        4 * i + 3 < code@.len(),
    ensures
        r == word_at(code@, i as int),
{
    let len = code.len();
    assert(4 * i + 3 < len);
    let base = 4 * i;
    let b0 = code[base] as u32;
    let b1 = code[base + 1] as u32;
    let b2 = code[base + 2] as u32;
    let b3 = code[base + 3] as u32;
    assert(b0 + 256 * b1 + 65536 * b2 + 16777216 * b3 <= u32::MAX) by (nonlinear_arith)
        requires
            b0 <= 255,
            b1 <= 255,
            b2 <= 255,
            b3 <= 255,
    ;
    b0 + 256 * b1 + 65536 * b2 + 16777216 * b3
}

/// Checks that `code` is a SPIR-V module as far as its size and first word tell, and
/// gives its words, least significant byte first.
pub fn check_spirv(code: &[u8]) -> (r: Result<Vec<u32>, InvalidShader>)
    ensures
        match (r, spec_check_spirv(code@)) {
            (Ok(words), Ok(expected)) => words@ == expected,
            (Err(e), Err(expected)) => e == expected,
            _ => false,
        },
{
    if code.len() == 0 {
        return Err(InvalidShader::EmptySource);
    }
    if code.len() % 4 != 0 {
        return Err(InvalidShader::SizeIsNotMultipleOfFour);
    }
    let magic = read_word(code, 0);
    if magic != SPIRV_MAGIC {
        return Err(InvalidShader::WrongMagic { found: magic });
    }
    let n = code.len() / 4;
    let mut words: Vec<u32> = Vec::new();
    let mut i: usize = 0;
    while i < n
        invariant
            i <= n,
            n == code@.len() / 4,
            words@.len() == i,
            forall|k: int| 0 <= k < i ==> #[trigger] words@[k] == word_at(code@, k) as u32,
        decreases n - i,
    {
        assert(4 * i + 3 < code@.len()) by (nonlinear_arith)
            requires
                i < n,
                n == code@.len() / 4,
        ;
        words.push(read_word(code, i));
        i = i + 1;
    }
    assert(words@ =~= spec_words(code@));
    Ok(words)
}

} // verus!
