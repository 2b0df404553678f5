use vstd::prelude::*;
use vstd::string::StringExecFns;
use rand::Rng;

verus! {

/// The smallest number the judge may draw.
pub const DRAW_LOW: i32 = 1;

/// One past the largest number the judge may draw.
pub const DRAW_HIGH: i32 = 100;

/// The outcome of comparing a guess with the drawn number.
#[derive(Clone, Copy, Debug, PartialEq, Eq, Structural)]
pub enum Verdict {
    TooHigh,
    TooLow,
    Correct,
}

/// The verdict on `guess` against `drawn`.
pub open spec fn verdict_of(guess: int, drawn: int) -> Verdict {
    if guess > drawn {
        Verdict::TooHigh
    } else if guess < drawn {
        Verdict::TooLow
    } else {
        Verdict::Correct
    }
}

/// The text the front end shows for a verdict.
pub open spec fn verdict_text(v: Verdict) -> Seq<char> {
    match v {
        Verdict::TooHigh => "猜大了"@,
        Verdict::TooLow => "猜小了"@,
        Verdict::Correct => "恭喜你猜对了"@,
    }
}

/// Whether `r` is the reply for `v`: the success side carries the text of a
/// correct verdict, the error side the text of any other.
pub open spec fn verdict_reply(v: Verdict, r: Result<String, String>) -> bool {
    match r {
        Ok(s) => v == Verdict::Correct && s@ == verdict_text(v),
        Err(s) => v != Verdict::Correct && s@ == verdict_text(v),
    }
}

/// Compares a guess with the drawn number.
pub fn judge(guess: i32, drawn: i32) -> (v: Verdict)
    ensures
        v == verdict_of(guess as int, drawn as int),
        v == Verdict::Correct <==> guess == drawn,
        v == Verdict::TooHigh <==> guess > drawn,
        v == Verdict::TooLow <==> guess < drawn,
{
    if guess > drawn {
        Verdict::TooHigh
    } else if guess < drawn {
        Verdict::TooLow
    } else {
        Verdict::Correct
    }
}

impl Verdict {
    /// The text shown for this verdict.
    pub fn text(&self) -> (r: String)
        ensures
            r@ == verdict_text(*self),
    {
        match self {
            Verdict::TooHigh => String::from_str("猜大了"),
            Verdict::TooLow => String::from_str("猜小了"),
            Verdict::Correct => String::from_str("恭喜你猜对了"),
        }
    }

    /// The command's reply: the text on the success side for a correct
    /// guess, on the error side otherwise.
    pub fn into_reply(self) -> (r: Result<String, String>)
        ensures
            verdict_reply(self, r),
    {
        let t = self.text();
        match self {
            Verdict::Correct => Ok(t),
            _ => Err(t),
        }
    }
}

/// The guessing command once the number has been drawn.
pub fn greet_with_draw(num: i32, drawn: i32) -> (r: Result<String, String>)
    ensures
        verdict_reply(verdict_of(num as int, drawn as int), r),
{
    judge(num, drawn).into_reply()
}

/// Relies on rand's `thread_rng` and `Rng::gen_range`: a sample from the
/// half-open range `low..high`, which panics only when that range is empty.
#[verifier::external_body]
fn draw_number(low: i32, high: i32) -> (r: i32)
    requires
        low < high,
    ensures
        low <= r < high,
{
    rand::thread_rng().gen_range(low..high)
}

/// The guessing command: draws a fresh number in `1..100` and judges `num`
/// against it.
pub fn greet(num: i32) -> (r: Result<String, String>)
    ensures
        exists|d: int|
            DRAW_LOW <= d < DRAW_HIGH && #[trigger] verdict_reply(verdict_of(num as int, d), r),
{
    let drawn = draw_number(DRAW_LOW, DRAW_HIGH);
    greet_with_draw(num, drawn)
}

/// For guesses and draws in `1..100` the three verdicts split the cases
/// exactly: correct when equal, too high when above, too low when below;
/// and the three reply texts differ from one another.
pub proof fn verdicts_partition(guess: int, drawn: int)
    requires
        DRAW_LOW <= guess < DRAW_HIGH,
        DRAW_LOW <= drawn < DRAW_HIGH,
    ensures
        verdict_of(guess, drawn) == Verdict::Correct <==> guess == drawn,
        verdict_of(guess, drawn) == Verdict::TooHigh <==> guess > drawn,
        verdict_of(guess, drawn) == Verdict::TooLow <==> guess < drawn,
        verdict_text(Verdict::TooHigh) != verdict_text(Verdict::TooLow),
        verdict_text(Verdict::TooHigh) != verdict_text(Verdict::Correct),
        verdict_text(Verdict::TooLow) != verdict_text(Verdict::Correct),
{
    reveal_strlit("猜大了");
    reveal_strlit("猜小了");
    reveal_strlit("恭喜你猜对了");
    assert(verdict_text(Verdict::TooHigh)[1] != verdict_text(Verdict::TooLow)[1]);
}

} // verus!
