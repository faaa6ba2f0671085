use vstd::prelude::*;
use rand::Rng;

verus! {

/// Characters used for referral codes: uppercase letters and digits, with
/// visually-ambiguous characters (0/O, 1/I) removed to keep codes easy for a
/// human to read back or type in.
pub const ALPHABET: &'static str = "ABCDEFGHJKLMNPQRSTUVWXYZ23456789";

/// The length of a referral code.
pub const CODE_LEN: usize = 8;

/// A well-formed referral code: `CODE_LEN` characters, each from `ALPHABET`.
pub open spec fn is_referral_code(s: Seq<char>) -> bool {
    &&& s.len() == CODE_LEN
    &&& forall|i: int| 0 <= i < s.len() ==> ALPHABET@.contains(#[trigger] s[i])
}

/// Calls `rand::Rng::gen_range(0..bound)` on `rand::thread_rng()`, which
/// panics on an empty range (excluded here) and otherwise returns a value
/// below `bound`; which one is left to chance.
#[verifier::external_body]
fn random_below(bound: usize) -> (r: usize)
    requires
        bound > 0,
    ensures
        r < bound,
{
    rand::thread_rng().gen_range(0..bound)
}

/// The code that the alphabet positions `draws` spell.
pub open spec fn code_of(draws: Seq<usize>) -> Seq<char> {
    Seq::new(draws.len(), |i: int| ALPHABET@[draws[i] as int])
}

/// The referral code spelled by `CODE_LEN` alphabet positions, each below
/// the alphabet's 32 characters.
pub fn code_from_draws(draws: &Vec<usize>) -> (code: String)
    requires
        draws@.len() == CODE_LEN,
        forall|i: int| 0 <= i < draws@.len() ==> #[trigger] draws@[i] < 32,
    ensures
        code@ == code_of(draws@),
        is_referral_code(code@),
{
    proof {
        reveal_strlit("ABCDEFGHJKLMNPQRSTUVWXYZ23456789");
    }
    let mut code = String::new();
    let mut k: usize = 0;
    while k < draws.len()
        invariant
            ALPHABET@.len() == 32,
            draws@.len() == CODE_LEN,
            forall|i: int| 0 <= i < draws@.len() ==> #[trigger] draws@[i] < 32,
            k <= draws@.len(),
            code@ == code_of(draws@.take(k as int)),
        decreases draws@.len() - k,
    {
        let idx = draws[k];
        let piece = ALPHABET.substring_char(idx, idx + 1);
        let ghost before = code@;
        code.append(piece);
        proof {
            assert(piece@[0] == ALPHABET@[idx as int]);
            assert(code@ =~= code_of(draws@.take(k + 1)));
        }
        k = k + 1;
    }
    proof {
        assert(draws@.take(draws@.len() as int) =~= draws@);
        assert forall|i: int| 0 <= i < code@.len() implies ALPHABET@.contains(#[trigger] code@[i]) by {
            assert(code@[i] == ALPHABET@[draws@[i] as int]);
        }
    }
    code
}

/// Generate a short, random, uppercase alphanumeric referral code (8 chars
/// by default). Not guaranteed unique: the stores do not enforce uniqueness.
/// Each character is drawn at random from the alphabet; which ones is left
/// to chance, and [`code_from_draws`] spells the code from the draws.
pub fn generate_referral_code() -> (code: String)
    ensures
        is_referral_code(code@),
        exists|draws: Seq<usize>|
            draws.len() == CODE_LEN && (forall|i: int| 0 <= i < CODE_LEN ==> #[trigger] draws[i] < 32) && code@
                == code_of(draws),
{
    proof {
        reveal_strlit("ABCDEFGHJKLMNPQRSTUVWXYZ23456789");
    }
    let n = ALPHABET.unicode_len();
    let mut draws: Vec<usize> = Vec::new();
    let mut k: usize = 0;
    while k < CODE_LEN
        invariant
            n == 32,
            k <= CODE_LEN,
            draws@.len() == k,
            forall|i: int| 0 <= i < k ==> #[trigger] draws@[i] < 32,
        decreases CODE_LEN - k,
    {
        draws.push(random_below(n));
        k = k + 1;
    }
    let code = code_from_draws(&draws);
    assert(draws@.len() == CODE_LEN);
    code
}

} // verus!
