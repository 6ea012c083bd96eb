use vstd::prelude::*;

verus! {

/// How a numeric color field is written out: in one of the integer radixes, or as a decimal
/// fraction with an optional number of fraction digits.
#[derive(Debug, Clone, Copy, PartialEq, Eq, Structural)]
pub enum DigitFormat {
    Hex,
    UppercaseHex,
    Octal,
    Decimal,
    Float { precision: u8 },
}

impl DigitFormat {
    pub open spec fn spec_radix(&self) -> u32 {
        match self {
            DigitFormat::Octal => 8,
            DigitFormat::Decimal => 10,
            DigitFormat::Hex => 16,
            DigitFormat::UppercaseHex => 16,
            DigitFormat::Float { .. } => 10,
        }
    }

    /// The radix in which this format writes integers.
    pub fn radix(&self) -> (r: u32)
        ensures
            r == self.spec_radix(),
    {
        match self {
            DigitFormat::Octal => 8,
            DigitFormat::Decimal => 10,
            DigitFormat::Hex => 16,
            DigitFormat::UppercaseHex => 16,
            DigitFormat::Float { .. } => 10,
        }
    }
}

} // verus!

verus! {

/// The digits of `n` in `radix`, most significant first; zero has the single digit 0.
pub open spec fn digits_of(n: nat, radix: nat) -> Seq<u32>
    decreases n,
{
    if radix < 2 || n < radix {
        seq![n as u32]
    } else {
        proof {
            assert(n / radix < n) by (nonlinear_arith)
                requires
                    radix >= 2,
                    n >= radix,
            ;
        }
        digits_of(n / radix, radix).push((n % radix) as u32)
    }
}

/// The number that a sequence of digits denotes in `radix`.
pub open spec fn digits_value(ds: Seq<u32>, radix: nat) -> nat
    decreases ds.len(),
{
    if ds.len() == 0 {
        0
    } else {
        digits_value(ds.drop_last(), radix) * radix + ds.last() as nat
    }
}

/// The character for digit `d` in `radix` (`0`-`9`, then letters), or none if `d` is no digit of
/// that radix.
pub open spec fn digit_char(d: u32, radix: u32, uppercase: bool) -> Option<char> {
    if d >= radix || radix > 36 {
        None
    } else if d < 10 {
        Some((48 + d) as char)
    } else if uppercase {
        Some((55 + d) as char)
    } else {
        Some((87 + d) as char)
    }
}

impl DigitFormat {
    pub open spec fn spec_format_digit(&self, d: u32) -> Option<char> {
        digit_char(d, self.spec_radix(), *self == DigitFormat::UppercaseHex)
    }

    /// The characters for the digits `ds` in this format; values that are no digit are skipped.
    pub open spec fn digit_text(&self, ds: Seq<u32>) -> Seq<char>
        decreases ds.len(),
    {
        if ds.len() == 0 {
            Seq::empty()
        } else {
            let rest = self.digit_text(ds.drop_first());
            match self.spec_format_digit(ds[0]) {
                Some(c) => seq![c] + rest,
                None => rest,
            }
        }
    }

    /// The text of `n` in this format's radix.
    pub open spec fn number_text(&self, n: nat) -> Seq<char> {
        self.digit_text(digits_of(n, self.spec_radix() as nat))
    }

    /// The character for `digit` in this format's radix; upper case letters for `UppercaseHex`.
    pub fn format_digit(&self, digit: u32) -> (r: Option<char>)
        ensures
            r == self.spec_format_digit(digit),
    {
        let radix = self.radix();
        if digit >= radix {
            None
        } else if digit < 10 {
            Some(((48 + digit) as u8) as char)
        } else if matches!(self, DigitFormat::UppercaseHex) {
            Some(((55 + digit) as u8) as char)
        } else {
            Some(((87 + digit) as u8) as char)
        }
    }
}

} // verus!

verus! {

proof fn lemma_reverse_push(s: Seq<u32>, x: u32)
    ensures
        s.push(x).reverse() == seq![x] + s.reverse(),
{
    assert(s.push(x).reverse() =~= seq![x] + s.reverse());
}

/// Pushes the digits of `num` in `radix` onto `stack`, least significant first.
fn push_digits(num: usize, radix: u32, stack: &mut Vec<u32>)
    requires
        radix == 8 || radix == 10 || radix == 16,
    ensures
        final(stack)@ == old(stack)@ + digits_of(num as nat, radix as nat).reverse(),
{
    let ghost all = digits_of(num as nat, radix as nat);
    if num == 0 {
        stack.push(0);
        assert(all.reverse() =~= seq![0u32]);
    } else {
        let r = radix as usize;
        let mut n = num;
        let ghost start = stack@;
        while n > 0
            invariant
                r == radix,
                radix == 8 || radix == 10 || radix == 16,
                all == digits_of(num as nat, radix as nat),
                stack@.len() >= start.len(),
                stack@.subrange(0, start.len() as int) == start,
                n > 0 ==> all == digits_of(n as nat, radix as nat) + stack@.subrange(
                    start.len() as int,
                    stack@.len() as int,
                ).reverse(),
                n == 0 ==> all == stack@.subrange(start.len() as int, stack@.len() as int).reverse(),
            decreases n,
        {
            let ghost pushed = stack@.subrange(start.len() as int, stack@.len() as int);
            let d = (n % r) as u32;
            stack.push(d);
            assert(stack@.subrange(start.len() as int, stack@.len() as int) =~= pushed.push(d));
            assert(stack@.subrange(0, start.len() as int) =~= start);
            proof {
                lemma_reverse_push(pushed, d);
            }
            if n < r {
                assert(digits_of(n as nat, radix as nat) == seq![n as u32]);
                assert(all =~= seq![d] + pushed.reverse());
            } else {
                assert(digits_of(n as nat, radix as nat) == digits_of((n / r) as nat, radix as nat).push(
                    d,
                ));
                assert(all =~= digits_of((n / r) as nat, radix as nat) + (seq![d] + pushed.reverse()));
            }
            n = n / r;
        }
        assert(stack@ =~= start + stack@.subrange(start.len() as int, stack@.len() as int));
    }
}

impl DigitFormat {
    /// Pushes the digits of `num` onto `stack`, least significant first, so that the most
    /// significant digit ends on top. The top of the stack is the end of the vector.
    pub fn populate_stack(&self, num: u32, stack: &mut Vec<u32>)
        ensures
            final(stack)@ == old(stack)@ + digits_of(num as nat, self.spec_radix() as nat).reverse(),
    {
        push_digits(num as usize, self.radix(), stack);
    }

    proof fn lemma_digit_text_cons(&self, ds: Seq<u32>)
        requires
            ds.len() > 0,
        ensures
            self.digit_text(ds) == match self.spec_format_digit(ds[0]) {
                Some(c) => seq![c] + self.digit_text(ds.drop_first()),
                None => self.digit_text(ds.drop_first()),
            },
    {
    }

    /// Pops every value off `stack` and writes the digit it stands for; values that are no
    /// digit of this format are skipped.
    fn write_stack(&self, text: &mut String, stack: &mut Vec<u32>)
        ensures
            final(text)@ == old(text)@ + self.digit_text(old(stack)@.reverse()),
            final(stack)@.len() == 0,
    {
        let ghost total = stack@.reverse();
        let ghost start = text@;
        while stack.len() > 0
            invariant
                start + self.digit_text(total) == text@ + self.digit_text(stack@.reverse()),
            decreases stack.len(),
        {
            let ghost before = stack@.reverse();
            let d = stack.pop().unwrap();
            assert(before[0] == d);
            assert(before.drop_first() =~= stack@.reverse());
            proof {
                self.lemma_digit_text_cons(before);
            }
            match self.format_digit(d) {
                Some(ch) => {
                    crate::text::push_char(text, ch);
                    assert(text@ + self.digit_text(stack@.reverse()) =~= start + self.digit_text(total));
                },
                None => {},
            }
        }
        assert(stack@.reverse() =~= Seq::<u32>::empty());
        assert(text@ =~= start + self.digit_text(total));
    }

    /// Writes `num` into `text` in this format's radix. Whatever `stack` held before is popped
    /// after the new digits and written too (values that are no digit are skipped); the stack is
    /// left empty.
    pub fn format_num(&self, num: u32, text: &mut String, stack: &mut Vec<u32>)
        ensures
            final(text)@ == old(text)@ + self.digit_text(
                digits_of(num as nat, self.spec_radix() as nat) + old(stack)@.reverse(),
            ),
            final(stack)@.len() == 0,
    {
        let ghost total = digits_of(num as nat, self.spec_radix() as nat) + old(stack)@.reverse();
        self.populate_stack(num, stack);
        assert(stack@.reverse() =~= total);
        self.write_stack(text, stack);
    }

    /// Pops the values off `stack` and writes the digits of at most `count` of them; the stack
    /// is left empty.
    fn write_stack_count(&self, text: &mut String, stack: &mut Vec<u32>, count: u8)
        ensures
            final(text)@ == old(text)@ + self.digit_text(taken(old(stack)@.reverse(), count as nat)),
            final(stack)@.len() == 0,
    {
        let ghost total = stack@.reverse();
        let ghost start = text@;
        let mut i: u8 = 0;
        while stack.len() > 0 && i < count
            invariant
                i <= count,
                i + stack@.len() == total.len(),
                total.subrange(i as int, total.len() as int) == stack@.reverse(),
                text@ == start + self.digit_text(total.take(i as int)),
            decreases stack.len(),
        {
            let ghost before = stack@.reverse();
            let d = stack.pop().unwrap();
            assert(before[0] == d);
            assert(before.drop_first() =~= stack@.reverse());
            assert(total[i as int] == d);
            proof {
                self.lemma_digit_text_append(total.take(i as int), d);
            }
            assert(total.take(i + 1) =~= total.take(i as int).push(d));
            match self.format_digit(d) {
                Some(ch) => {
                    crate::text::push_char(text, ch);
                    assert(text@ =~= start + self.digit_text(total.take(i + 1)));
                },
                None => {},
            }
            i += 1;
        }
        proof {
            if i as int >= total.len() {
                assert(total.take(i as int) =~= total);
            }
        }
        stack.clear();
    }

    /// Like `format_num`, but writes at most `digit_count` of the popped values; the stack is left
    /// empty.
    pub fn format_num_count(&self, num: u32, text: &mut String, stack: &mut Vec<u32>, digit_count: u8)
        ensures
            final(text)@ == old(text)@ + self.digit_text(
                taken(
                    digits_of(num as nat, self.spec_radix() as nat) + old(stack)@.reverse(),
                    digit_count as nat,
                ),
            ),
            final(stack)@.len() == 0,
    {
        let ghost total = digits_of(num as nat, self.spec_radix() as nat) + old(stack)@.reverse();
        self.populate_stack(num, stack);
        assert(stack@.reverse() =~= total);
        self.write_stack_count(text, stack, digit_count);
    }

    pub proof fn lemma_digit_text_append(&self, ds: Seq<u32>, d: u32)
        ensures
            self.digit_text(ds.push(d)) == self.digit_text(ds) + match self.spec_format_digit(d) {
                Some(c) => seq![c],
                None => Seq::<char>::empty(),
            },
        decreases ds.len(),
    {
        if ds.len() == 0 {
            assert(ds.push(d).drop_first() =~= Seq::<u32>::empty());
            assert(self.digit_text(Seq::<u32>::empty()) == Seq::<char>::empty());
        } else {
            assert(ds.push(d).drop_first() =~= ds.drop_first().push(d));
            self.lemma_digit_text_append(ds.drop_first(), d);
        }
        assert(self.digit_text(ds.push(d)) =~= self.digit_text(ds) + match self.spec_format_digit(d) {
            Some(c) => seq![c],
            None => Seq::<char>::empty(),
        });
    }
}

/// The first `count` of `ds`, or all of them when there are fewer.
pub open spec fn taken(ds: Seq<u32>, count: nat) -> Seq<u32> {
    if count <= ds.len() {
        ds.take(count as int)
    } else {
        ds
    }
}

/// `-` for a negative number, nothing otherwise.
pub open spec fn sign_text(negative: bool) -> Seq<char> {
    if negative {
        seq!['-']
    } else {
        Seq::empty()
    }
}

/// The `len` digits of a fraction whose digits, read as an integer, give `fract`: the decimal
/// digits of `fract` with zeros in front up to `len` digits.
pub open spec fn fraction_digits(fract: nat, len: nat) -> Seq<u32> {
    let ds = digits_of(fract, 10);
    if len > ds.len() {
        Seq::new((len - ds.len()) as nat, |i: int| 0u32) + ds
    } else {
        ds
    }
}

/// What follows the whole part of a decimal number: with a precision `p`, a point (when `p` is
/// not zero) and at most `p` digits of the fraction; without one, a point and all its digits.
pub open spec fn fraction_text(fract: nat, len: nat, precision: Option<u8>) -> Seq<char> {
    let ds = fraction_digits(fract, len);
    match precision {
        Some(p) => (if p > 0 {
            seq!['.']
        } else {
            Seq::empty()
        }) + DigitFormat::Decimal.digit_text(taken(ds, p as nat)),
        None => seq!['.'] + DigitFormat::Decimal.digit_text(ds),
    }
}

/// The text of a decimal number given by its sign, its whole part, and the `len` digits of its
/// fraction read as the integer `fract`.
pub open spec fn float_text(
    negative: bool,
    whole: nat,
    fract: nat,
    len: nat,
    precision: Option<u8>,
) -> Seq<char> {
    sign_text(negative) + DigitFormat::Decimal.number_text(whole) + fraction_text(
        fract,
        len,
        precision,
    )
}

/// The digits of a fraction as a stack: least significant at the bottom, most significant on
/// top.
fn fraction_stack(fract: u32, fract_len: u32) -> (ds: Vec<u32>)
    ensures
        ds@.reverse() == fraction_digits(fract as nat, fract_len as nat),
{
    let ghost fds = digits_of(fract as nat, 10);
    let mut ds: Vec<u32> = Vec::new();
    push_digits(fract as usize, 10, &mut ds);
    assert(ds@ =~= fds.reverse());
    let dlen = ds.len();
    while ds.len() < fract_len as usize
        invariant
            dlen == fds.len(),
            dlen <= ds.len(),
            ds.len() <= dlen || ds.len() <= fract_len as usize,
            ds@ == fds.reverse() + Seq::new((ds.len() - dlen) as nat, |i: int| 0u32),
        decreases fract_len as usize - ds.len(),
    {
        ds.push(0);
        assert(ds@ =~= fds.reverse() + Seq::new((ds.len() - dlen) as nat, |i: int| 0u32));
    }
    let ghost zs = Seq::new((ds.len() - dlen) as nat, |i: int| 0u32);
    assert(zs.reverse() =~= zs);
    assert(ds@.reverse() =~= zs + fds);
    assert(ds@.reverse() =~= fraction_digits(fract as nat, fract_len as nat));
    ds
}

impl DigitFormat {
    /// Writes a decimal number given by its sign, its whole part, and the `fract_len` digits of
    /// its fraction read as the integer `fract` (so that `0.05` has `fract` 5 and `fract_len`
    /// 2). Whatever `stack` held before is written after the whole part's digits; the stack is
    /// left empty.
    pub fn format_float(
        negative: bool,
        whole: u32,
        fract: u32,
        fract_len: u32,
        text: &mut String,
        stack: &mut Vec<u32>,
        precision: Option<u8>,
    )
        ensures
            final(text)@ == old(text)@ + sign_text(negative) + DigitFormat::Decimal.digit_text(
                digits_of(whole as nat, 10) + old(stack)@.reverse(),
            ) + fraction_text(fract as nat, fract_len as nat, precision),
            final(stack)@.len() == 0,
    {
        let ghost start = text@;
        if negative {
            crate::text::push_char(text, '-');
        }
        assert(text@ == start + sign_text(negative));
        DigitFormat::Decimal.format_num(whole, text, stack);
        let ghost whole_done = text@;
        let mut ds = fraction_stack(fract, fract_len);
        match precision {
            Some(p) => {
                if p > 0 {
                    crate::text::push_char(text, '.');
                }
                DigitFormat::Decimal.write_stack_count(text, &mut ds, p);
                assert(text@ =~= whole_done + fraction_text(fract as nat, fract_len as nat, precision));
            },
            None => {
                crate::text::push_char(text, '.');
                DigitFormat::Decimal.write_stack(text, &mut ds);
                assert(text@ =~= whole_done + fraction_text(fract as nat, fract_len as nat, precision));
            },
        }
    }
}

/// Appends the decimal digits of `n`, as `{}` formatting writes an integer.
pub fn push_decimal(text: &mut String, n: usize)
    ensures
        final(text)@ == old(text)@ + DigitFormat::Decimal.number_text(n as nat),
{
    let mut stack: Vec<u32> = Vec::new();
    push_digits(n, 10, &mut stack);
    assert(stack@.reverse() =~= digits_of(n as nat, 10));
    DigitFormat::Decimal.write_stack(text, &mut stack);
}

} // verus!

verus! {

/// Reading the digits of `n` back in the same radix gives `n`, and each digit is below the
/// radix, so no digit is skipped when they are written out.
pub proof fn law_digits_roundtrip(n: nat, radix: nat)
    requires
        2 <= radix <= 36,
    ensures
        digits_value(digits_of(n, radix), radix) == n,
        forall|i: int| 0 <= i < digits_of(n, radix).len() ==> (#[trigger] digits_of(n, radix)[i]) < radix,
    decreases n,
{
    if n < radix {
        assert(digits_of(n, radix) == seq![n as u32]);
        assert(digits_of(n, radix).drop_last() =~= Seq::<u32>::empty());
        assert(digits_value(Seq::<u32>::empty(), radix) == 0);
        assert(digits_value(seq![n as u32], radix) == 0 * radix + n);
    } else {
        assert(n / radix < n) by (nonlinear_arith)
            requires
                radix >= 2,
                n >= radix,
        ;
        law_digits_roundtrip(n / radix, radix);
        let ds = digits_of(n, radix);
        assert(ds.drop_last() =~= digits_of(n / radix, radix));
        assert(n == (n / radix) * radix + n % radix) by (nonlinear_arith)
            requires
                radix >= 2,
        ;
        assert(n % radix < radix) by (nonlinear_arith)
            requires
                radix >= 2,
        ;
        assert(ds == digits_of(n / radix, radix).push((n % radix) as u32));
        assert(ds.last() == (n % radix) as u32);
        assert(digits_value(ds, radix) == digits_value(ds.drop_last(), radix) * radix + ds.last() as nat);
    }
}

/// The decimal text that `format_num` writes for `n` reads back as `n` where a format string
/// gives a precision.
pub proof fn law_decimal_text_reads_back(n: nat)
    ensures
        crate::format::decimal_value(DigitFormat::Decimal.number_text(n)) == n,
    decreases n,
{
    let f = DigitFormat::Decimal;
    if n < 10 {
        assert(digits_of(n, 10) == seq![n as u32]);
        assert(seq![n as u32].drop_first() =~= Seq::<u32>::empty());
        assert(f.digit_text(Seq::<u32>::empty()) == Seq::<char>::empty());
        assert(f.spec_format_digit(n as u32) == Some((48 + n) as char));
        assert(f.number_text(n) =~= seq![(48 + n) as char]);
        assert(f.number_text(n).drop_last() =~= Seq::<char>::empty());
        assert(((48 + n) as char) as int == 48 + n);
        assert(crate::format::decimal_value(Seq::<char>::empty()) == 0);
    } else {
        law_decimal_text_reads_back(n / 10);
        let d = (n % 10) as u32;
        assert(digits_of(n, 10) == digits_of(n / 10, 10).push(d));
        f.lemma_digit_text_append(digits_of(n / 10, 10), d);
        let t = f.number_text(n);
        assert(t == f.number_text(n / 10) + seq![(48 + d) as char]);
        assert(t.drop_last() =~= f.number_text(n / 10));
        assert(((48 + d) as char) as int == 48 + d);
        assert(t.last() == (48 + d) as char);
    }
}

} // verus!

verus! {

/// The value of a digit character in any radix up to 36: `0`-`9` are 0 to 9, and the letters
/// `a`-`z` and `A`-`Z` are 10 to 35; any other character is no digit (-1).
pub open spec fn char_digit_value(c: char) -> int {
    if '0' <= c <= '9' {
        c as int - 48
    } else if 'a' <= c <= 'z' {
        c as int - 97 + 10
    } else if 'A' <= c <= 'Z' {
        c as int - 65 + 10
    } else {
        -1
    }
}

/// The number that a text of digits denotes in `radix`, most significant digit first.
pub open spec fn read_digits(cs: Seq<char>, radix: int) -> int
    decreases cs.len(),
{
    if cs.len() == 0 {
        0
    } else {
        read_digits(cs.drop_last(), radix) * radix + char_digit_value(cs.last())
    }
}

proof fn lemma_digit_char_value(f: DigitFormat, d: u32)
    requires
        d < f.spec_radix(),
    ensures
        f.spec_format_digit(d) matches Some(c) && char_digit_value(c) == d,
{
    let r = f.spec_radix();
    assert(r <= 16);
    if d < 10 {
        assert(((48 + d) as char) as int == 48 + d);
    } else if f == DigitFormat::UppercaseHex {
        assert(((55 + d) as char) as int == 55 + d);
    } else {
        assert(((87 + d) as char) as int == 87 + d);
    }
}

/// Every format writes a number with the digits of its radix (`0`-`9`, then letters for ten
/// and up), and reading that text back in the radix gives the number.
pub proof fn law_number_text_reads_back(f: DigitFormat, n: nat)
    ensures
        read_digits(f.number_text(n), f.spec_radix() as int) == n,
        forall|i: int|
            0 <= i < f.number_text(n).len() ==> 0 <= #[trigger] char_digit_value(f.number_text(n)[i])
                < f.spec_radix(),
    decreases n,
{
    let r = f.spec_radix() as nat;
    assert(r == 8 || r == 10 || r == 16);
    let t = f.number_text(n);
    if n < r {
        assert(digits_of(n, r) == seq![n as u32]);
        lemma_digit_char_value(f, n as u32);
        let c = f.spec_format_digit(n as u32)->0;
        assert(seq![n as u32].drop_first() =~= Seq::<u32>::empty());
        assert(f.digit_text(Seq::<u32>::empty()) == Seq::<char>::empty());
        assert(t =~= seq![c]);
        assert(t.drop_last() =~= Seq::<char>::empty());
        assert(read_digits(Seq::<char>::empty(), r as int) == 0);
    } else {
        assert(n / r < n) by (nonlinear_arith)
            requires
                r >= 2,
                n >= r,
        ;
        law_number_text_reads_back(f, n / r);
        let d = (n % r) as u32;
        assert(n % r < r) by (nonlinear_arith)
            requires
                r >= 2,
        ;
        assert(digits_of(n, r) == digits_of(n / r, r).push(d));
        f.lemma_digit_text_append(digits_of(n / r, r), d);
        lemma_digit_char_value(f, d);
        let c = f.spec_format_digit(d)->0;
        let prev = f.number_text(n / r);
        assert(t == prev + seq![c]);
        assert(t.drop_last() =~= prev);
        assert(t.last() == c);
        assert(n == (n / r) * r + n % r) by (nonlinear_arith)
            requires
                r >= 2,
        ;
        assert forall|i: int| 0 <= i < t.len() implies 0 <= #[trigger] char_digit_value(t[i]) < f.spec_radix() by {
            if i < prev.len() {
                assert(t[i] == prev[i]);
            } else {
                assert(t[i] == c);
            }
        }
    }
}

} // verus!
