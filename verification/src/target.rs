//! The render-target selector: which output channel a frame produces.
//!
//! The two variants carry a stable wire contract: numeric codes 0 (color)
//! and 1 (density), and the lowercase string tokens `"color"` and
//! `"density"`. Both encodings are stated as explicit spec-level tables so
//! that reordering the variant list can never silently change the wire
//! format.

use vstd::prelude::*;
use vstd::string::StrSliceExecFns;

verus! {

/// Numeric wire code of [`RenderTarget::Color`].
pub const RENDER_TARGET_COLOR: u32 = 0;

/// Numeric wire code of [`RenderTarget::Density`].
pub const RENDER_TARGET_DENSITY: u32 = 1;

/// The output channel a frame produces.
#[derive(Clone, Copy, Debug, PartialEq, Eq, Structural, PartialOrd, Ord, Hash)]
pub enum RenderTarget {
    Color,
    Density,
}

/// The numeric wire code of each variant, as an explicit table.
pub open spec fn code_of(t: RenderTarget) -> u32 {
    match t {
        RenderTarget::Color => RENDER_TARGET_COLOR,
        RenderTarget::Density => RENDER_TARGET_DENSITY,
    }
}

/// The variant a numeric wire code denotes, if any.
pub open spec fn target_of_code(code: u32) -> Option<RenderTarget> {
    if code == RENDER_TARGET_COLOR {
        Some(RenderTarget::Color)
    } else if code == RENDER_TARGET_DENSITY {
        Some(RenderTarget::Density)
    } else {
        None
    }
}

/// The string token of each variant, as an explicit table.
pub open spec fn token_of(t: RenderTarget) -> Seq<char> {
    match t {
        RenderTarget::Color => "color"@,
        RenderTarget::Density => "density"@,
    }
}

/// The variant a string token denotes, if any; only the exact lowercase
/// tokens are recognized.
pub open spec fn target_of_token(s: Seq<char>) -> Option<RenderTarget> {
    if s == "color"@ {
        Some(RenderTarget::Color)
    } else if s == "density"@ {
        Some(RenderTarget::Density)
    } else {
        None
    }
}

/// Conversion from a numeric wire code failed; carries the rejected code.
#[derive(Clone, Copy, Debug, PartialEq, Eq, Structural)]
pub struct RenderTargetParseU32Error(pub u32);

/// Conversion from a string token failed; carries the rejected string.
#[derive(Debug, PartialEq, Eq)]
pub struct RenderTargetParseStrError(pub String);

/// Character-by-character string comparison, equivalent to equality of
/// the two character sequences.
fn str_eq(s: &str, t: &str) -> (b: bool)
    ensures
        b == (s@ == t@),
{
    let n = s.unicode_len();
    if n != t.unicode_len() {
        return false;
    }
    let mut i: usize = 0;
    while i < n
        invariant
            n == s@.len(),
            n == t@.len(),
            i <= n,
            forall|j: int| 0 <= j < i ==> s@[j] == t@[j],
        decreases n - i,
    {
        if s.get_char(i) != t.get_char(i) {
            return false;
        }
        i = i + 1;
    }
    proof {
        assert(s@ =~= t@);
    }
    true
}

impl RenderTarget {
    /// The stable numeric wire code of this variant.
    pub fn to_code(self) -> (code: u32)
        ensures
            code == code_of(self),
    {
        match self {
            RenderTarget::Color => RENDER_TARGET_COLOR,
            RenderTarget::Density => RENDER_TARGET_DENSITY,
        }
    }

    /// Decodes a numeric wire code; exactly the codes 0 and 1 succeed,
    /// and a failure carries the rejected code.
    pub fn from_code(code: u32) -> (r: Result<RenderTarget, RenderTargetParseU32Error>)
        ensures
            r matches Ok(t) ==> target_of_code(code) == Some(t),
            r is Ok <==> target_of_code(code) is Some,
            r matches Err(e) ==> e.0 == code && target_of_code(code) is None,
    {
        if code == RENDER_TARGET_COLOR {
            Ok(RenderTarget::Color)
        } else if code == RENDER_TARGET_DENSITY {
            Ok(RenderTarget::Density)
        } else {
            Err(RenderTargetParseU32Error(code))
        }
    }

    /// The lowercase string token of this variant.
    pub fn as_str(self) -> (s: &'static str)
        ensures
            s@ == token_of(self),
    {
        match self {
            RenderTarget::Color => "color",
            RenderTarget::Density => "density",
        }
    }

    /// The lowercase string token of this variant, as an owned string.
    pub fn to_string(self) -> (s: String)
        ensures
            s@ == token_of(self),
    {
        self.as_str().to_owned()
    }

    /// Parses a string token; exactly the lowercase tokens `"color"` and
    /// `"density"` succeed, and a failure carries the rejected string.
    pub fn parse(s: &str) -> (r: Result<RenderTarget, RenderTargetParseStrError>)
        ensures
            r matches Ok(t) ==> target_of_token(s@) == Some(t),
            r is Ok <==> target_of_token(s@) is Some,
            r matches Err(e) ==> e.0@ == s@ && target_of_token(s@) is None,
    {
        if str_eq(s, "color") {
            Ok(RenderTarget::Color)
        } else if str_eq(s, "density") {
            Ok(RenderTarget::Density)
        } else {
            Err(RenderTargetParseStrError(s.to_owned()))
        }
    }
}

impl std::str::FromStr for RenderTarget {
    type Err = RenderTargetParseStrError;

    /// Same contract as [`RenderTarget::parse`]: exactly the lowercase
    /// tokens succeed, and a failure carries the rejected string.
    fn from_str(s: &str) -> (r: Result<Self, Self::Err>)
        ensures
            r matches Ok(t) ==> target_of_token(s@) == Some(t),
            r is Ok <==> target_of_token(s@) is Some,
            r matches Err(e) ==> e.0@ == s@ && target_of_token(s@) is None,
    {
        RenderTarget::parse(s)
    }
}

impl Default for RenderTarget {
    /// The default output channel is color.
    fn default() -> (r: Self)
        ensures
            r == RenderTarget::Color,
    {
        RenderTarget::Color
    }
}

/// Decoding the code of any variant restores that variant exactly.
pub proof fn lemma_code_round_trip(t: RenderTarget)
    ensures
        target_of_code(code_of(t)) == Some(t),
{
}

/// Parsing the token of any variant restores that variant exactly.
pub proof fn lemma_token_round_trip(t: RenderTarget)
    ensures
        target_of_token(token_of(t)) == Some(t),
{
    reveal_strlit("color");
    reveal_strlit("density");
    assert("color"@.len() == 5);
    assert("density"@.len() == 7);
}

} // verus!
