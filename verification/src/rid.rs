//! Resource identifiers: the natural numbers in decimal, issued in order.
use vstd::prelude::*;
use vstd::string::*;

verus! {

/// The character that stands for a decimal digit.
pub open spec fn digit_char(d: nat) -> char {
    if d == 0 {
        '0'
    } else if d == 1 {
        '1'
    } else if d == 2 {
        '2'
    } else if d == 3 {
        '3'
    } else if d == 4 {
        '4'
    } else if d == 5 {
        '5'
    } else if d == 6 {
        '6'
    } else if d == 7 {
        '7'
    } else if d == 8 {
        '8'
    } else {
        '9'
    }
}

/// The identifier with number `n`: `n` written in decimal, without leading
/// zeros.
pub open spec fn rid_text(n: nat) -> Seq<char>
    decreases n,
{
    if n < 10 {
        seq![digit_char(n)]
    } else {
        rid_text(n / 10).push(digit_char(n % 10))
    }
}

/// The number that a sequence of decimal digits stands for, most significant
/// digit first.
pub open spec fn digits_value(digits: Seq<u8>) -> nat
    decreases digits.len(),
{
    if digits.len() == 0 {
        0
    } else {
        digits_value(digits.drop_last()) * 10 + digits.last() as nat
    }
}

/// Whether a sequence of digits is the decimal form of a number: not empty,
/// every digit below ten, and no leading zero but in `0` itself.
pub open spec fn digits_canonical(digits: Seq<u8>) -> bool {
    &&& digits.len() >= 1
    &&& forall|i: int| 0 <= i < digits.len() ==> digits[i] < 10
    &&& (digits.len() > 1 ==> digits[0] != 0)
}

/// The digits that follow `digits` when counting up by one.
pub open spec fn digits_succ(digits: Seq<u8>) -> Seq<u8>
    decreases digits.len(),
{
    if digits.len() == 0 {
        seq![1u8]
    } else if digits.last() == 9 {
        digits_succ(digits.drop_last()).push(0u8)
    } else {
        digits.drop_last().push((digits.last() + 1) as u8)
    }
}

/// The text of a sequence of digits.
pub open spec fn digits_text(digits: Seq<u8>) -> Seq<char> {
    Seq::new(digits.len(), |i: int| digit_char(digits[i] as nat))
}

/// Digits that begin with a digit other than zero stand for a number
/// other than zero.
proof fn lemma_value_positive(digits: Seq<u8>)
    requires
        digits.len() >= 1,
        digits[0] != 0,
    ensures
        digits_value(digits) >= 1,
    decreases digits.len(),
{
    if digits.len() > 1 {
        lemma_value_positive(digits.drop_last());
    } else {
        assert(digits.drop_last().len() == 0);
        assert(digits_value(digits.drop_last()) == 0);
    }
}

/// The text of the decimal form of a number is the number's identifier.
proof fn lemma_text_is_decimal(digits: Seq<u8>)
    requires
        digits_canonical(digits),
    ensures
        digits_text(digits) == rid_text(digits_value(digits)),
    decreases digits.len(),
{
    let init = digits.drop_last();
    if digits.len() == 1 {
        assert(init.len() == 0);
        assert(digits_value(init) == 0);
        assert(digits_text(digits) =~= seq![digit_char(digits[0] as nat)]);
    } else {
        assert(digits_canonical(init));
        lemma_value_positive(init);
        lemma_text_is_decimal(init);
        let n = digits_value(digits);
        assert(n / 10 == digits_value(init));
        assert(n % 10 == digits.last() as nat);
        assert(digits_text(digits) =~= digits_text(init).push(digit_char(digits.last() as nat)));
    }
}

/// Counting up by one leads from the decimal form of a number to that of
/// the next.
proof fn lemma_succ(digits: Seq<u8>)
    requires
        digits.len() == 0 || digits_canonical(digits),
    ensures
        digits_value(digits_succ(digits)) == digits_value(digits) + 1,
        digits_canonical(digits_succ(digits)),
        digits_succ(digits)[0] != 0,
    decreases digits.len(),
{
    let next = digits_succ(digits);
    let init = digits.drop_last();
    if digits.len() == 0 {
        assert(next.drop_last().len() == 0);
        assert(digits_value(next.drop_last()) == 0);
    } else if digits.last() == 9 {
        lemma_succ(init);
        assert(next.drop_last() =~= digits_succ(init));
        assert(next[0] == digits_succ(init)[0]);
    } else {
        assert(next.drop_last() =~= init);
        if init.len() > 0 {
            assert(next[0] == digits[0]);
        }
    }
}

/// Different digits have different characters.
proof fn lemma_digit_char_injective(a: nat, b: nat)
    requires
        a < 10,
        b < 10,
        digit_char(a) == digit_char(b),
    ensures
        a == b,
{
}

/// The identifiers of different numbers differ.
pub proof fn lemma_rid_text_injective(a: nat, b: nat)
    requires
        rid_text(a) == rid_text(b),
    ensures
        a == b,
    decreases a,
{
    lemma_rid_text_len(a);
    lemma_rid_text_len(b);
    if a < 10 {
        assert(rid_text(a)[0] == digit_char(a));
        assert(rid_text(b)[0] == digit_char(b));
        lemma_digit_char_injective(a, b);
    } else {
        let x = rid_text(a / 10);
        let y = rid_text(b / 10);
        let p = x.push(digit_char(a % 10));
        let q = y.push(digit_char(b % 10));
        assert(p == q);
        assert(p.drop_last() =~= x);
        assert(q.drop_last() =~= y);
        assert(p.last() == digit_char(a % 10));
        assert(q.last() == digit_char(b % 10));
        lemma_rid_text_injective(a / 10, b / 10);
        lemma_digit_char_injective(a % 10, b % 10);
    }
}

/// An identifier is never empty, and has one character exactly if its
/// number is below ten.
pub proof fn lemma_rid_text_len(n: nat)
    ensures
        n < 10 <==> rid_text(n).len() == 1,
        rid_text(n).len() >= 1,
    decreases n,
{
    if n >= 10 {
        lemma_rid_text_len(n / 10);
    }
}

/// A counter that hands out resource identifiers in order, starting at `0`.
/// It keeps its number in decimal digits, so it never runs out.
pub struct RidCounter {
    digits: Vec<u8>,
}

impl View for RidCounter {
    type V = nat;

    /// The number of the identifier that is issued next.
    closed spec fn view(&self) -> nat {
        digits_value(self.digits@)
    }
}

impl RidCounter {
    /// Whether the counter is in working order.
    pub closed spec fn wf(&self) -> bool {
        digits_canonical(self.digits@)
    }

    /// A counter whose next identifier is `0`.
    pub fn new() -> (c: Self)
        ensures
            c.wf(),
            c@ == 0,
    {
        let mut digits: Vec<u8> = Vec::new();
        digits.push(0u8);
        proof {
            assert(digits@.drop_last().len() == 0);
            assert(digits_value(digits@.drop_last()) == 0);
        }
        RidCounter { digits }
    }

    /// Issues the next identifier.
    pub fn next(&mut self) -> (rid: String)
        requires
            old(self).wf(),
        ensures
            final(self).wf(),
            rid@ == rid_text(old(self)@),
            final(self)@ == old(self)@ + 1,
    {
        let rid = self.text();
        self.advance();
        rid
    }

    /// The identifier that is issued next.
    fn text(&self) -> (rid: String)
        requires
            self.wf(),
        ensures
            rid@ == rid_text(self@),
    {
        let mut rid = String::new();
        let mut i: usize = 0;
        while i < self.digits.len()
            invariant
                i <= self.digits.len(),
                forall|j: int| 0 <= j < self.digits.len() ==> self.digits@[j] < 10,
                rid@ == digits_text(self.digits@.take(i as int)),
            decreases self.digits.len() - i,
        {
            let d = self.digits[i];
            let s = digit_str(d);
            rid.append(s);
            i += 1;
            assert(rid@ =~= digits_text(self.digits@.take(i as int)));
        }
        proof {
            assert(self.digits@.take(i as int) =~= self.digits@);
            lemma_text_is_decimal(self.digits@);
        }
        rid
    }

    /// Counts up by one.
    fn advance(&mut self)
        requires
            old(self).wf(),
        ensures
            final(self).wf(),
            final(self)@ == old(self)@ + 1,
    {
        let ghost before = self.digits@;
        let n = self.digits.len();
        let mut i: usize = n;
        while i > 0 && self.digits[i - 1] == 9
            invariant
                i <= n,
                self.digits@ == before,
                before.len() == n,
                forall|j: int| i <= j < n ==> before[j] == 9,
            decreases i,
        {
            i -= 1;
        }
        let mut k: usize = i;
        while k < n
            invariant
                i <= k <= n,
                self.digits@.len() == n,
                before.len() == n,
                forall|j: int| 0 <= j < i ==> self.digits@[j] == before[j],
                forall|j: int| i <= j < k ==> self.digits@[j] == 0,
                forall|j: int| k <= j < n ==> self.digits@[j] == before[j],
            decreases n - k,
        {
            self.digits.set(k, 0u8);
            k += 1;
        }
        if i == 0 {
            self.digits.insert(0, 1u8);
        } else {
            let d = self.digits[i - 1];
            assert(d == before[i - 1]);
            self.digits.set(i - 1, d + 1);
        }
        proof {
            lemma_carry(before, i as int);
            assert(self.digits@ =~= digits_succ(before));
            lemma_succ(before);
        }
    }
}

/// What counting up does to digits that end in a run of nines: the run turns
/// to zeros and the digit before it, if there is one, goes up by one.
proof fn lemma_carry(digits: Seq<u8>, i: int)
    requires
        0 <= i <= digits.len(),
        forall|j: int| i <= j < digits.len() ==> digits[j] == 9,
        i > 0 ==> digits[i - 1] < 9,
    ensures
        i == 0 ==> digits_succ(digits).len() == digits.len() + 1,
        i > 0 ==> digits_succ(digits).len() == digits.len(),
        forall|j: int|
            0 <= j < digits_succ(digits).len() ==> #[trigger] digits_succ(digits)[j] == if i == 0 {
                if j == 0 {
                    1u8
                } else {
                    0u8
                }
            } else if j < i - 1 {
                digits[j]
            } else if j == i - 1 {
                (digits[j] + 1) as u8
            } else {
                0u8
            },
    decreases digits.len(),
{
    if digits.len() == 0 {
    } else if digits.last() == 9 {
        let init = digits.drop_last();
        if i == digits.len() {
            assert(false);
        }
        lemma_carry(init, i);
    } else {
        assert(i == digits.len());
    }
}

/// The one-character string of a decimal digit.
fn digit_str(d: u8) -> (s: &'static str)
    requires
        d < 10,
    ensures
        s@ == seq![digit_char(d as nat)],
{
    proof {
        reveal_strlit("0");
        reveal_strlit("1");
        reveal_strlit("2");
        reveal_strlit("3");
        reveal_strlit("4");
        reveal_strlit("5");
        reveal_strlit("6");
        reveal_strlit("7");
        reveal_strlit("8");
        reveal_strlit("9");
    }
    let s = if d == 0 {
        "0"
    } else if d == 1 {
        "1"
    } else if d == 2 {
        "2"
    } else if d == 3 {
        "3"
    } else if d == 4 {
        "4"
    } else if d == 5 {
        "5"
    } else if d == 6 {
        "6"
    } else if d == 7 {
        "7"
    } else if d == 8 {
        "8"
    } else {
        "9"
    };
    assert(s@ =~= seq![digit_char(d as nat)]);
    s
}

} // verus!
