use vstd::prelude::*;
use crate::score::Score;

verus! {

/// The character of a decimal digit.
pub open spec fn digit_char(d: nat) -> char {
    (48 + d) as char
}

/// The decimal text of a number, most significant digit first, with no
/// leading zeros (zero itself is "0").
pub open spec fn decimal(n: nat) -> Seq<char>
    decreases n,
{
    if n < 10 {
        seq![digit_char(n)]
    } else {
        decimal(n / 10).push(digit_char(n % 10))
    }
}

/// The decimal text of a number padded with a zero to at least two digits.
pub open spec fn pad2(n: nat) -> Seq<char> {
    if n < 10 {
        seq!['0', digit_char(n)]
    } else {
        decimal(n)
    }
}

/// The number that a text of decimal digits denotes.
pub open spec fn digits_value(s: Seq<char>) -> int
    decreases s.len(),
{
    if s.len() == 0 {
        0
    } else {
        digits_value(s.drop_last()) * 10 + (s.last() as int - 48)
    }
}

/// Whether every character of a text is a decimal digit.
pub open spec fn all_digits(s: Seq<char>) -> bool {
    forall|i: int| 0 <= i < s.len() ==> '0' <= #[trigger] s[i] <= '9'
}

/// The closing text of a run: the play time as minutes and seconds, each
/// at least two digits, then the hearts held and the pillars, gears and
/// owls hit, and the number of falls.
pub open spec fn summary_text(total_seconds: nat, score: Score) -> Seq<char> {
    "Thank you for playing!!\n\nPlay Time: "@ + pad2(total_seconds / 60) + ":"@ + pad2(
        total_seconds % 60,
    ) + "\nHearts Collected: "@ + decimal(score.heart as nat) + "\nPillars Hit: "@ + decimal(
        score.pillar as nat,
    ) + "\nGears Hit: "@ + decimal(score.gear as nat) + "\nOwls Hit: "@ + decimal(
        score.owl as nat,
    ) + "\nGame Over: "@ + decimal(score.game_over as nat)
}

fn digit_str(d: u32) -> (s: &'static str)
    requires
        d < 10,
    ensures
        s@ == seq![digit_char(d as nat)],
{
    match d {
        0 => {
            proof {
                reveal_strlit("0");
            }
            "0"
        },
        1 => {
            proof {
                reveal_strlit("1");
            }
            "1"
        },
        2 => {
            proof {
                reveal_strlit("2");
            }
            "2"
        },
        3 => {
            proof {
                reveal_strlit("3");
            }
            "3"
        },
        4 => {
            proof {
                reveal_strlit("4");
            }
            "4"
        },
        5 => {
            proof {
                reveal_strlit("5");
            }
            "5"
        },
        6 => {
            proof {
                reveal_strlit("6");
            }
            "6"
        },
        7 => {
            proof {
                reveal_strlit("7");
            }
            "7"
        },
        8 => {
            proof {
                reveal_strlit("8");
            }
            "8"
        },
        _ => {
            proof {
                reveal_strlit("9");
            }
            "9"
        },
    }
}

/// Appends the decimal text of `n` to `s`.
fn push_decimal(s: &mut String, n: u32)
    ensures
        final(s)@ == old(s)@ + decimal(n as nat),
    decreases n,
{
    if n >= 10 {
        push_decimal(s, n / 10);
        s.append(digit_str(n % 10));
        assert(final(s)@ =~= old(s)@ + decimal(n as nat));
    } else {
        s.append(digit_str(n));
    }
}

/// Appends the text of `n` padded with a zero to two digits.
fn push_pad2(s: &mut String, n: u32)
    ensures
        final(s)@ == old(s)@ + pad2(n as nat),
{
    if n < 10 {
        s.append(digit_str(0));
        s.append(digit_str(n));
        assert(final(s)@ =~= old(s)@ + pad2(n as nat));
    } else {
        push_decimal(s, n);
    }
}

/// The decimal text of a number.
pub fn decimal_text(n: u32) -> (text: String)
    ensures
        text@ == decimal(n as nat),
{
    let mut s = String::new();
    push_decimal(&mut s, n);
    assert(s@ =~= decimal(n as nat));
    s
}

impl Score {
    /// The coin count as shown beside the coin icon.
    pub fn coin_text(&self) -> (text: String)
        ensures
            text@ == decimal(self.coin as nat),
    {
        decimal_text(self.coin)
    }
}

/// The text shown when a run is over, from its play time in whole seconds
/// and its tally.
pub fn ending_summary(total_seconds: u32, score: &Score) -> (text: String)
    ensures
        text@ == summary_text(total_seconds as nat, *score),
{
    let minutes = total_seconds / 60;
    let seconds = total_seconds % 60;
    let mut s = String::from_str("Thank you for playing!!\n\nPlay Time: ");
    push_pad2(&mut s, minutes);
    s.append(":");
    push_pad2(&mut s, seconds);
    s.append("\nHearts Collected: ");
    push_decimal(&mut s, score.heart);
    s.append("\nPillars Hit: ");
    push_decimal(&mut s, score.pillar);
    s.append("\nGears Hit: ");
    push_decimal(&mut s, score.gear);
    s.append("\nOwls Hit: ");
    push_decimal(&mut s, score.owl);
    s.append("\nGame Over: ");
    push_decimal(&mut s, score.game_over);
    s
}

/// The decimal text of a number reads back as that number: it is made of
/// digits only, it starts with a zero only when it is "0", and its digits
/// denote the number.
pub proof fn lemma_decimal_reads_back(n: nat)
    ensures
        all_digits(decimal(n)),
        decimal(n).len() >= 1,
        decimal(n)[0] == '0' ==> n == 0,
        digits_value(decimal(n)) == n,
    decreases n,
{
    if n < 10 {
        assert(digit_char(n) as int == 48 + n);
        assert(decimal(n).drop_last() =~= Seq::<char>::empty());
        assert(digits_value(decimal(n)) == digits_value(decimal(n).drop_last()) * 10 + (
        decimal(n).last() as int - 48));
    } else {
        lemma_decimal_reads_back(n / 10);
        let d = decimal(n);
        assert(d.drop_last() =~= decimal(n / 10));
        assert(d[0] == decimal(n / 10)[0]);
        assert(d.last() as int == 48 + n % 10);
        assert(n == (n / 10) * 10 + n % 10);
        assert(digits_value(d) == digits_value(d.drop_last()) * 10 + (d.last() as int - 48));
        assert(digits_value(d.drop_last()) == n / 10);
        assert forall|i: int| 0 <= i < d.len() implies '0' <= #[trigger] d[i] <= '9' by {
            if i < d.len() - 1 {
                assert(d[i] == decimal(n / 10)[i]);
            }
        }
    }
}

/// The zero padding changes no number: the padded text of a number is all
/// digits, at least two of them, and reads back as the number.
pub proof fn lemma_pad2_reads_back(n: nat)
    ensures
        all_digits(pad2(n)),
        pad2(n).len() >= 2,
        digits_value(pad2(n)) == n,
{
    lemma_decimal_reads_back(n);
    if n < 10 {
        let p = pad2(n);
        assert(p.drop_last() =~= seq!['0']);
        assert(seq!['0'].drop_last() =~= Seq::<char>::empty());
        assert(digits_value(seq!['0']) == digits_value(seq!['0'].drop_last()) * 10 + ('0' as int
            - 48));
        assert(digit_char(n) as int == 48 + n);
        assert(digits_value(p) == digits_value(p.drop_last()) * 10 + (p.last() as int - 48));
    } else {
        lemma_decimal_reads_back(n / 10);
        assert(decimal(n).len() == decimal(n / 10).len() + 1);
    }
}

/// The play time shown is exact: its minutes times sixty plus its seconds
/// give back the total, and the seconds part is below a minute.
pub proof fn lemma_play_time_reads_back(total_seconds: nat)
    ensures
        digits_value(pad2(total_seconds / 60)) * 60 + digits_value(pad2(total_seconds % 60))
            == total_seconds,
        digits_value(pad2(total_seconds % 60)) < 60,
{
    lemma_pad2_reads_back(total_seconds / 60);
    lemma_pad2_reads_back(total_seconds % 60);
}

/// Whether `d` is a text of decimal digits, at least one, that reads back
/// as `n`.
pub open spec fn shows(d: Seq<char>, n: nat) -> bool {
    &&& all_digits(d)
    &&& d.len() >= 1
    &&& digits_value(d) == n
}

/// The layout of the closing text around its numbers: the fixed labels with
/// the minutes, seconds, hearts, pillars, gears, owls and falls in between.
pub open spec fn summary_layout(
    minutes: Seq<char>,
    seconds: Seq<char>,
    hearts: Seq<char>,
    pillars: Seq<char>,
    gears: Seq<char>,
    owls: Seq<char>,
    falls: Seq<char>,
) -> Seq<char> {
    "Thank you for playing!!\n\nPlay Time: "@ + minutes + ":"@ + seconds + "\nHearts Collected: "@
        + hearts + "\nPillars Hit: "@ + pillars + "\nGears Hit: "@ + gears + "\nOwls Hit: "@ + owls
        + "\nGame Over: "@ + falls
}

/// The closing text states every number as it is held: it is the fixed
/// labels with digit texts in between, and those digits read back as the
/// whole minutes of play, the seconds left over (below sixty, both padded to
/// at least two digits), and the hearts, pillars, gears, owls and falls of
/// the tally.
pub proof fn lemma_summary_states_the_tally(total_seconds: nat, score: Score)
    ensures
        exists|
            minutes: Seq<char>,
            seconds: Seq<char>,
            hearts: Seq<char>,
            pillars: Seq<char>,
            gears: Seq<char>,
            owls: Seq<char>,
            falls: Seq<char>,
        |
            #![trigger summary_layout(minutes, seconds, hearts, pillars, gears, owls, falls)]
            {
                &&& summary_text(total_seconds, score) == summary_layout(
                    minutes,
                    seconds,
                    hearts,
                    pillars,
                    gears,
                    owls,
                    falls,
                )
                &&& shows(minutes, total_seconds / 60) && minutes.len() >= 2
                &&& shows(seconds, total_seconds % 60) && seconds.len() >= 2
                &&& digits_value(minutes) * 60 + digits_value(seconds) == total_seconds
                &&& shows(hearts, score.heart as nat)
                &&& shows(pillars, score.pillar as nat)
                &&& shows(gears, score.gear as nat)
                &&& shows(owls, score.owl as nat)
                &&& shows(falls, score.game_over as nat)
            },
{
    lemma_pad2_reads_back(total_seconds / 60);
    lemma_pad2_reads_back(total_seconds % 60);
    lemma_decimal_reads_back(score.heart as nat);
    lemma_decimal_reads_back(score.pillar as nat);
    lemma_decimal_reads_back(score.gear as nat);
    lemma_decimal_reads_back(score.owl as nat);
    lemma_decimal_reads_back(score.game_over as nat);
    assert(summary_text(total_seconds, score) == summary_layout(
        pad2(total_seconds / 60),
        pad2(total_seconds % 60),
        decimal(score.heart as nat),
        decimal(score.pillar as nat),
        decimal(score.gear as nat),
        decimal(score.owl as nat),
        decimal(score.game_over as nat),
    ));
}

} // verus!
