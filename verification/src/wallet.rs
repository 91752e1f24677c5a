//! The player's gold and the texts that show it.
use vstd::prelude::*;
use vstd::string::*;

verus! {

/// The character of the decimal digit `d` (below 10).
pub open spec fn digit_char(d: nat) -> char {
    if d == 0 {
        '0'
    } else if d == 1 {
        '1'
    } else if d == 2 {
        '2'
    } else if d == 3 {
        '3'
    } else if d == 4 {
        '4'
    } else if d == 5 {
        '5'
    } else if d == 6 {
        '6'
    } else if d == 7 {
        '7'
    } else if d == 8 {
        '8'
    } else {
        '9'
    }
}

/// The decimal digits of `n`, most significant first, without leading zeros.
pub open spec fn decimal(n: nat) -> Seq<char>
    decreases n,
{
    if n < 10 {
        seq![digit_char(n)]
    } else {
        decimal(n / 10).push(digit_char(n % 10))
    }
}

/// The number that a sequence of decimal digit characters stands for, each
/// character read as its distance from `'0'`.
pub open spec fn digits_value(s: Seq<char>) -> int
    decreases s.len(),
{
    if s.len() == 0 {
        0
    } else {
        digits_value(s.drop_last()) * 10 + (s.last() as int - '0' as int)
    }
}

/// Whether every character of `s` is one of `0` to `9`.
pub open spec fn all_digits(s: Seq<char>) -> bool {
    forall|i: int| 0 <= i < s.len() ==> '0' <= #[trigger] s[i] <= '9'
}

/// The digit character of `d` is the ASCII character `'0' + d`.
pub proof fn lemma_digit_char(d: nat)
    requires
        d < 10,
    ensures
        digit_char(d) as int == '0' as int + d,
{
}

/// `decimal(n)` is the decimal numeral of `n`: only digits, no leading zero
/// (but for zero itself), and read back with place values it is `n`.
pub proof fn lemma_decimal_is_numeral(n: nat)
    ensures
        all_digits(decimal(n)),
        digits_value(decimal(n)) == n,
        decimal(n).len() >= 1,
        decimal(n)[0] == '0' ==> n == 0,
    decreases n,
{
    lemma_digit_char(n % 10);
    if n >= 10 {
        lemma_decimal_is_numeral(n / 10);
        let s = decimal(n);
        assert(s.drop_last() =~= decimal(n / 10));
        assert(s.last() == digit_char(n % 10));
        assert(digits_value(s) == digits_value(decimal(n / 10)) * 10 + (n % 10));
        assert(n == (n / 10) * 10 + n % 10);
        assert(s[0] == decimal(n / 10)[0]);
        assert forall|i: int| 0 <= i < s.len() implies '0' <= #[trigger] s[i] <= '9' by {
            if i < s.len() - 1 {
                assert(s[i] == decimal(n / 10)[i]);
            }
        }
    } else {
        assert(decimal(n).drop_last() =~= Seq::<char>::empty());
        assert(digits_value(decimal(n).drop_last()) == 0);
    }
}

fn digit_text(d: u32) -> (text: &'static str)
    requires
        d < 10,
    ensures
        text@ == seq![digit_char(d as nat)],
        text@.len() == 1 && text@[0] as int == '0' as int + d,
{
    proof {
        lemma_digit_char(d as nat);
        reveal_strlit("0");
        reveal_strlit("1");
        reveal_strlit("2");
        reveal_strlit("3");
        reveal_strlit("4");
        reveal_strlit("5");
        reveal_strlit("6");
        reveal_strlit("7");
        reveal_strlit("8");
        reveal_strlit("9");
    }
    if d == 0 {
        "0"
    } else if d == 1 {
        "1"
    } else if d == 2 {
        "2"
    } else if d == 3 {
        "3"
    } else if d == 4 {
        "4"
    } else if d == 5 {
        "5"
    } else if d == 6 {
        "6"
    } else if d == 7 {
        "7"
    } else if d == 8 {
        "8"
    } else {
        "9"
    }
}

/// Appends the decimal digits of `n` to `text`.
fn append_decimal(text: &mut String, n: u32)
    ensures
        final(text)@ == old(text)@ + decimal(n as nat),
    decreases n,
{
    if n >= 10 {
        append_decimal(text, n / 10);
    }
    text.append(digit_text(n % 10));
    proof {
        if n >= 10 {
            assert(old(text)@ + decimal((n / 10) as nat) + seq![digit_char((n % 10) as nat)]
                =~= old(text)@ + decimal(n as nat));
        } else {
            assert(old(text)@ + seq![digit_char(n as nat)] =~= old(text)@ + decimal(n as nat));
        }
    }
}

/// The gold the player has collected.
pub struct PlayerWallet {
    pub coins: u32,
}

impl Default for PlayerWallet {
    /// An empty wallet.
    fn default() -> (wallet: PlayerWallet)
        ensures
            wallet.coins == 0,
    {
        PlayerWallet { coins: 0 }
    }
}

impl PlayerWallet {
    /// Adds the gold of a `GoldGained` event.
    pub fn add_gold(&mut self, amount: u32)
        requires
            old(self).coins + amount <= u32::MAX,
        ensures
            final(self).coins == old(self).coins + amount,
    {
        self.coins = self.coins + amount;
    }

    /// The coin counter's text: `Coins: ` and the number of coins.
    pub fn label(&self) -> (text: String)
        ensures
            text@ == "Coins: "@ + decimal(self.coins as nat),
            text@.take(7) == "Coins: "@,
            digits_value(text@.skip(7)) == self.coins,
            all_digits(text@.skip(7)),
    {
        let mut text = String::new();
        text.append("Coins: ");
        append_decimal(&mut text, self.coins);
        proof {
            reveal_strlit("Coins: ");
            assert(text@.take(7) =~= "Coins: "@);
            assert(text@.skip(7) =~= decimal(self.coins as nat));
            lemma_decimal_is_numeral(self.coins as nat);
        }
        text
    }
}

/// The text that floats up from an opened chest: `+`, the gold, ` Gold`.
pub fn gold_popup_text(gold: u32) -> (text: String)
    ensures
        text@ == "+"@ + decimal(gold as nat) + " Gold"@,
        text@.len() >= 7,
        digits_value(text@.subrange(1, text@.len() - 5)) == gold,
        all_digits(text@.subrange(1, text@.len() - 5)),
{
    let mut text = String::new();
    text.append("+");
    append_decimal(&mut text, gold);
    text.append(" Gold");
    proof {
        reveal_strlit("+");
        reveal_strlit(" Gold");
        lemma_decimal_is_numeral(gold as nat);
        assert(text@.subrange(1, text@.len() - 5) =~= decimal(gold as nat));
    }
    text
}

} // verus!
