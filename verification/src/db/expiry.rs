//! The expiry of a payment card, written `MM/YY`.

use vstd::prelude::*;
use vstd::string::*;
use crate::numeral::{decimal, is_digit, lemma_decimal_denotes, parse_u32_range, parse_u32_spec, render_u32};

verus! {

/// The month and two-digit year in which a card expires.
#[derive(Debug, Clone, Copy, PartialEq, Eq)]
pub struct Expiry {
    month: u32,
    year: u32,
}

/// Where the first `/` of `s` at or after `from` stands, or the length of `s` where
/// there is none.
pub open spec fn slash_from(s: Seq<char>, from: int) -> int
    decreases s.len() - from,
{
    if from >= s.len() {
        s.len() as int
    } else if s[from] == '/' {
        from
    } else {
        slash_from(s, from + 1)
    }
}

/// The expiry that a text denotes: a month from 1 to 12, a `/`, and a year of at
/// least 21, each an unsigned number, with nothing before, between or after. Any
/// other text denotes none.
pub open spec fn expiry_of_text(s: Seq<char>) -> Option<(u32, u32)> {
    let at = slash_from(s, 0);
    if at >= s.len() {
        None
    } else {
        match (parse_u32_spec(s.subrange(0, at)), parse_u32_spec(s.subrange(at + 1, s.len() as int))) {
            (Some(month), Some(year)) => if 1 <= month <= 12 && year >= 21 {
                Some((month, year))
            } else {
                None
            },
            _ => None,
        }
    }
}

/// The text of an expiry: the month and the year in decimal with a `/` between.
pub open spec fn expiry_text(month: u32, year: u32) -> Seq<char> {
    decimal(month as nat) + seq!['/'] + decimal(year as nat)
}

proof fn lemma_slash_from_bounds(s: Seq<char>, from: int)
    requires
        0 <= from <= s.len(),
    ensures
        from <= slash_from(s, from) <= s.len(),
        slash_from(s, from) < s.len() ==> s[slash_from(s, from)] == '/',
        forall|i: int| from <= i < slash_from(s, from) ==> s[i] != '/',
    decreases s.len() - from,
{
    if from < s.len() && s[from] != '/' {
        lemma_slash_from_bounds(s, from + 1);
    }
}

/// The text of an expiry in range denotes that expiry again.
pub proof fn lemma_expiry_text_round_trip(month: u32, year: u32)
    requires
        1 <= month <= 12,
        year >= 21,
    ensures
        expiry_of_text(expiry_text(month, year)) == Some((month, year)),
{
    let left = decimal(month as nat);
    let right = decimal(year as nat);
    let s = expiry_text(month, year);
    lemma_decimal_denotes(month as nat);
    lemma_decimal_denotes(year as nat);
    lemma_slash_from_bounds(s, 0);
    let at = slash_from(s, 0);
    assert(s[left.len() as int] == '/');
    assert forall|i: int| 0 <= i < left.len() implies s[i] != '/' by {
        assert(s[i] == left[i]);
        assert(is_digit(left[i]));
    }
    assert(at == left.len());
    assert(s.subrange(0, at) =~= left);
    assert(s.subrange(at + 1, s.len() as int) =~= right);
}

impl Expiry {
    #[verifier::type_invariant]
    spec fn in_range(self) -> bool {
        1 <= self.month <= 12 && self.year >= 21
    }

    /// The month, from 1 to 12.
    pub closed spec fn spec_month(self) -> u32 {
        self.month
    }

    /// The two-digit year, 21 or later.
    pub closed spec fn spec_year(self) -> u32 {
        self.year
    }

    /// The month, from 1 to 12.
    pub fn month(&self) -> (m: u32)
        ensures
            m == self.spec_month(),
            1 <= m <= 12,
    {
        proof {
            use_type_invariant(self);
        }
        self.month
    }

    /// The two-digit year, 21 or later.
    pub fn year(&self) -> (y: u32)
        ensures
            y == self.spec_year(),
            y >= 21,
    {
        proof {
            use_type_invariant(self);
        }
        self.year
    }

    /// Reads an expiry written as `MM/YY`. Text that does not denote an expiry gives
    /// `None`.
    pub fn from_str(s: &str) -> (r: Option<Expiry>)
        ensures
            match r {
                Some(e) => expiry_of_text(s@) == Some((e.spec_month(), e.spec_year())),
                None => expiry_of_text(s@) is None,
            },
    {
        let len = s.unicode_len();
        let mut at: usize = 0;
        while at < len && s.get_char(at) != '/'
            invariant
                at <= len == s@.len(),
                slash_from(s@, 0) == slash_from(s@, at as int),
            decreases len - at,
        {
            at = at + 1;
        }
        if at >= len {
            return None;
        }
        let month = match parse_u32_range(s, 0, at) {
            Some(m) => m,
            None => {
                return None;
            },
        };
        if month < 1 || month > 12 {
            return None;
        }
        let year = match parse_u32_range(s, at + 1, len) {
            Some(y) => y,
            None => {
                return None;
            },
        };
        if year < 21 {
            return None;
        }
        Some(Expiry { month, year })
    }

    /// Writes the expiry as month, `/`, year. Reading the text back gives this expiry
    /// again.
    pub fn to_string(&self) -> (s: String)
        ensures
            s@ == expiry_text(self.spec_month(), self.spec_year()),
            expiry_of_text(s@) == Some((self.spec_month(), self.spec_year())),
    {
        proof {
            use_type_invariant(self);
            lemma_expiry_text_round_trip(self.month, self.year);
            reveal_strlit("/");
        }
        let year = render_u32(self.year);
        let s = render_u32(self.month).concat("/").concat(year.as_str());
        assert(s@ =~= expiry_text(self.month, self.year));
        s
    }
}

} // verus!
