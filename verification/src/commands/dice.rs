//! The `roll` command: dice notation such as `3d6`, throwing the dice and the
//! reply that reports the total.

use rand::rngs::ThreadRng;
use rand::Rng;
use vstd::prelude::*;
use vstd::string::*;

use crate::draws::DrawLog;
use crate::text::{all_digits, decimal, parse_unsigned, parse_unsigned_at_most, push_decimal};

verus! {

/// `rand::rngs::ThreadRng`, the thread's random generator, held opaque.
#[verifier::external_type_specification]
#[verifier::external_body]
pub struct ExThreadRng(ThreadRng);

/// `rand::thread_rng`: a handle on the thread's random generator. Nothing is
/// claimed of it.
#[verifier::external_body]
fn thread_rng() -> ThreadRng {
    rand::thread_rng()
}

/// `rand::Rng::gen_range` on `u32`: a number in `low..high`, which rand
/// documents (and which panics where `low >= high`, hence the `requires`).
/// Which number comes out is left to chance. The draw (the range asked for
/// and the number) is added to `log`, a record kept only for the proofs.
#[verifier::external_body]
fn gen_range_u32(rng: &mut ThreadRng, low: u32, high: u32, log: &mut DrawLog) -> (r: u32)
    requires
        low < high,
    ensures
        low <= r < high,
        final(log)@ == old(log)@.push((low, high, r)),
{
    rng.gen_range(low, high)
}

/// A request to throw `times` dice with `dice` faces each.
pub struct Roll {
    pub times: u32,
    pub dice: u32,
}

/// Whether `c` separates the number of dice from their faces (`d` or `D`).
pub open spec fn is_dice_separator(c: char) -> bool {
    c == 'd' || c == 'D'
}

/// The position of the first separator at or after `from`, or the length of
/// `s` where there is none.
pub open spec fn next_separator(s: Seq<char>, from: int) -> int
    decreases s.len() - from,
{
    if from < 0 || from >= s.len() {
        s.len() as int
    } else if is_dice_separator(s[from]) {
        from
    } else {
        next_separator(s, from + 1)
    }
}

/// The text before the first separator: the number of dice.
pub open spec fn count_part(s: Seq<char>) -> Seq<char> {
    s.subrange(0, next_separator(s, 0))
}

/// Whether the notation holds a separator at all.
pub open spec fn has_separator(s: Seq<char>) -> bool {
    next_separator(s, 0) < s.len()
}

/// The text between the first separator and the next one (or the end): the
/// number of faces.
pub open spec fn faces_part(s: Seq<char>) -> Seq<char> {
    let k = next_separator(s, 0);
    s.subrange(k + 1, next_separator(s, k + 1))
}

/// Why dice notation was refused.
#[derive(PartialEq, Eq, Structural, Debug, Clone, Copy)]
pub enum RollParseError {
    /// The text before the separator is no `u32`.
    NoCount,
    /// The text after the separator is no `u32`.
    NoDice,
}

/// Notation whose count reads as a number but that has no separator: the
/// faces are then missing altogether, and the command gives up.
pub open spec fn notation_lacks_dice(s: Seq<char>) -> bool {
    parse_unsigned(count_part(s), u32::MAX as nat) is Some && !has_separator(s)
}

/// What the notation `s` asks for: the number of dice and their faces.
pub open spec fn spec_parse_roll(s: Seq<char>) -> Result<(nat, nat), RollParseError> {
    match parse_unsigned(count_part(s), u32::MAX as nat) {
        None => Err(RollParseError::NoCount),
        Some(times) => match parse_unsigned(faces_part(s), u32::MAX as nat) {
            None => Err(RollParseError::NoDice),
            Some(dice) => Ok((times, dice)),
        },
    }
}

/// Whether `times` dice of `dice` faces can be thrown, each face drawn from
/// `1..dice + 1`: no dice at all, or faces in `1..u32::MAX`.
pub open spec fn dice_usable(times: nat, dice: nat) -> bool {
    times == 0 || (1 <= dice && dice < u32::MAX)
}

/// Whether the dice can be thrown and even the largest total fits in `u32`.
pub open spec fn can_throw(times: nat, dice: nat) -> bool {
    dice_usable(times, dice) && times * dice <= u32::MAX
}

/// The faces that a record of draws shows: the number of each draw.
pub open spec fn logged_faces(log: Seq<(u32, u32, u32)>) -> Seq<u32> {
    Seq::new(log.len(), |i: int| log[i].2)
}

/// Whether `log` records the throw `faces` of dice with `dice` faces: one
/// draw per die, each asking for `1..dice + 1` and coming out as the face.
pub open spec fn is_face_log(log: Seq<(u32, u32, u32)>, faces: Seq<u32>, dice: nat) -> bool {
    &&& log.len() == faces.len()
    &&& forall|i: int| 0 <= i < log.len() ==> #[trigger] log[i] == (1u32, (dice + 1) as u32, faces[i])
}

/// The total of the faces `f`.
pub open spec fn faces_sum(f: Seq<u32>) -> nat
    decreases f.len(),
{
    if f.len() == 0 {
        0
    } else {
        faces_sum(f.drop_last()) + f.last() as nat
    }
}

/// Whether `f` is one outcome of throwing `times` dice with `dice` faces.
pub open spec fn is_throw(f: Seq<u32>, times: nat, dice: nat) -> bool {
    &&& f.len() == times
    &&& forall|i: int| 0 <= i < f.len() ==> 1 <= #[trigger] f[i] <= dice
}

/// The reply that reports a total.
pub open spec fn roll_message(times: nat, dice: nat, total: nat) -> Seq<char> {
    "You rolled a d"@ + decimal(dice) + " "@ + (if times >= 2 {
        "s"@
    } else {
        ""@
    }) + " time"@ + decimal(times) + " and got a `"@ + decimal(total) + "`"@
}

/// The reply to a count that is no number.
pub open spec fn no_count_message() -> Seq<char> {
    "I'm sorry but you did not give me a number for the amount of the rolls!"@
}

/// The reply to faces that are no number.
pub open spec fn no_dice_message() -> Seq<char> {
    "I'm sorry but you did not give me a valid dice!"@
}

/// Every throw totals between one point per die and the faces of every die.
pub proof fn lemma_throw_bounds(f: Seq<u32>, times: nat, dice: nat)
    requires
        is_throw(f, times, dice),
    ensures
        times <= faces_sum(f) <= times * dice,
    decreases f.len(),
{
    if f.len() > 0 {
        let g = f.drop_last();
        assert(is_throw(g, (times - 1) as nat, dice)) by {
            assert forall|i: int| 0 <= i < g.len() implies 1 <= #[trigger] g[i] <= dice by {
                assert(g[i] == f[i]);
            }
        }
        lemma_throw_bounds(g, (times - 1) as nat, dice);
        assert(((times - 1) as nat) * dice + dice == times * dice) by (nonlinear_arith)
            requires
                times >= 1,
        ;
    }
}

/// Characters that are no separators are skipped in the search for one.
proof fn lemma_next_separator_skips(s: Seq<char>, from: int, k: int)
    requires
        0 <= from <= k <= s.len(),
        forall|i: int| from <= i < k ==> !is_dice_separator(#[trigger] s[i]),
    ensures
        next_separator(s, from) == next_separator(s, k),
    decreases k - from,
{
    if from < k {
        lemma_next_separator_skips(s, from + 1, k);
    }
}

/// Dice notation written from two numbers reads back as those numbers: for
/// any `times` and `dice`, `{times}d{dice}` asks for `times` dice with
/// `dice` faces, and the command can answer it.
pub proof fn law_notation_reads_back(times: u32, dice: u32)
    ensures
        !notation_lacks_dice(decimal(times as nat) + "d"@ + decimal(dice as nat)),
        spec_parse_roll(decimal(times as nat) + "d"@ + decimal(dice as nat)) == Ok::<
            (nat, nat),
            RollParseError,
        >((times as nat, dice as nat)),
{
    reveal_strlit("d");
    let a = decimal(times as nat);
    let b = decimal(dice as nat);
    let s = a + "d"@ + b;
    crate::text::lemma_decimal_is_digits(times as nat);
    crate::text::lemma_decimal_is_digits(dice as nat);
    let k = a.len() as int;
    assert(s[k] == 'd');
    assert forall|i: int| 0 <= i < k implies !is_dice_separator(#[trigger] s[i]) by {
        assert(s[i] == a[i]);
        assert(crate::text::is_digit(a[i]));
    }
    lemma_next_separator_skips(s, 0, k);
    assert(next_separator(s, k) == k);
    assert forall|i: int| k + 1 <= i < s.len() implies !is_dice_separator(#[trigger] s[i]) by {
        assert(s[i] == b[i - k - 1]);
        assert(crate::text::is_digit(b[i - k - 1]));
    }
    lemma_next_separator_skips(s, k + 1, s.len() as int);
    assert(count_part(s) =~= a);
    assert(faces_part(s) =~= b);
    crate::text::law_decimal_reads_back(times as nat, u32::MAX as nat);
    crate::text::law_decimal_reads_back(dice as nat, u32::MAX as nat);
}

/// The reply to a throw reads back as the numbers it reports: the text after
/// `You rolled a d` is the number of faces, the text after ` time` the number
/// of dice, and the text between `` and got a ` `` and the closing backtick
/// the total itself, each written in plain decimal digits (so nothing else can
/// stand there); the `s` appears exactly when two or more dice were thrown.
pub proof fn law_reply_reads_back(times: u32, dice: u32, total: u32)
    ensures
        exists|a: Seq<char>, b: Seq<char>, c: Seq<char>|
            #![trigger all_digits(a), all_digits(b), all_digits(c)]
            {
                &&& roll_message(times as nat, dice as nat, total as nat) == "You rolled a d"@ + a
                    + " "@ + (if times >= 2 {
                    "s"@
                } else {
                    ""@
                }) + " time"@ + b + " and got a `"@ + c + "`"@
                &&& all_digits(a) && all_digits(b) && all_digits(c)
                &&& parse_unsigned(a, u32::MAX as nat) == Some(dice as nat)
                &&& parse_unsigned(b, u32::MAX as nat) == Some(times as nat)
                &&& parse_unsigned(c, u32::MAX as nat) == Some(total as nat)
            },
{
    let a = decimal(dice as nat);
    let b = decimal(times as nat);
    let c = decimal(total as nat);
    crate::text::lemma_decimal_is_digits(dice as nat);
    crate::text::lemma_decimal_is_digits(times as nat);
    crate::text::lemma_decimal_is_digits(total as nat);
    crate::text::law_decimal_reads_back(dice as nat, u32::MAX as nat);
    crate::text::law_decimal_reads_back(times as nat, u32::MAX as nat);
    crate::text::law_decimal_reads_back(total as nat, u32::MAX as nat);
    assert(all_digits(a) && all_digits(b) && all_digits(c));
}

/// The total that the reply to a throw reports is the sum of the thrown
/// faces: for every throw whose faces add up to a `u32`, the text between
/// `` and got a ` `` and the closing backtick is made of digits that read
/// back as that sum.
pub proof fn law_reply_reports_faces_sum(times: u32, dice: u32, faces: Seq<u32>)
    requires
        faces_sum(faces) <= u32::MAX,
    ensures
        exists|pre: Seq<char>, c: Seq<char>|
            #![trigger all_digits(c), pre.len()]
            {
                &&& roll_message(times as nat, dice as nat, faces_sum(faces)) == pre
                    + " and got a `"@ + c + "`"@
                &&& all_digits(c)
                &&& parse_unsigned(c, u32::MAX as nat) == Some(faces_sum(faces))
            },
{
    let t = faces_sum(faces);
    let pre = "You rolled a d"@ + decimal(dice as nat) + " "@ + (if times >= 2 {
        "s"@
    } else {
        ""@
    }) + " time"@ + decimal(times as nat);
    let c = decimal(t);
    crate::text::lemma_decimal_is_digits(t);
    crate::text::law_decimal_reads_back(t, u32::MAX as nat);
    assert(all_digits(c));
    assert(pre.len() == pre.len());
}

/// The position of the first `d` or `D` at or after `from`, or the length.
fn find_separator(s: &str, from: usize) -> (k: usize)
    requires
        from <= s@.len(),
    ensures
        k == next_separator(s@, from as int),
        from <= k <= s@.len(),
{
    let n = s.unicode_len();
    let mut i = from;
    while i < n
        invariant
            n == s@.len(),
            from <= i <= n,
            next_separator(s@, from as int) == next_separator(s@, i as int),
        decreases n - i,
    {
        let c = s.get_char(i);
        if c == 'd' || c == 'D' {
            return i;
        }
        i = i + 1;
    }
    i
}

/// Whether the notation reads as a count without any separator, the one
/// input on which the `roll` command gives up instead of answering.
pub fn lacks_dice(arg: &str) -> (r: bool)
    ensures
        r == notation_lacks_dice(arg@),
{
    let n = arg.unicode_len();
    let k = find_separator(arg, 0);
    let count = arg.substring_char(0, k);
    parse_unsigned_at_most(count, 0xffff_ffff).is_some() && k == n
}

/// Reads dice notation: the text up to the first `d`/`D` is the number of
/// dice, the text from there to the next `d`/`D` (or the end) the faces.
pub fn parse_roll(arg: &str) -> (r: Result<Roll, RollParseError>)
    requires
        !notation_lacks_dice(arg@),
    ensures
        match r {
            Ok(roll) => spec_parse_roll(arg@) == Ok::<(nat, nat), RollParseError>(
                (roll.times as nat, roll.dice as nat),
            ),
            Err(e) => spec_parse_roll(arg@) == Err::<(nat, nat), RollParseError>(e),
        },
{
    let n = arg.unicode_len();
    let k = find_separator(arg, 0);
    let count = arg.substring_char(0, k);
    let times = match parse_unsigned_at_most(count, 0xffff_ffff) {
        Some(t) => t as u32,
        None => {
            return Err(RollParseError::NoCount);
        },
    };
    let end = find_separator(arg, k + 1);
    let faces = arg.substring_char(k + 1, end);
    let dice = match parse_unsigned_at_most(faces, 0xffff_ffff) {
        Some(d) => d as u32,
        None => {
            return Err(RollParseError::NoDice);
        },
    };
    Ok(Roll::new(times, dice))
}

impl Roll {
    /// A request for `times` dice with `dice` faces.
    pub fn new(times: u32, dice: u32) -> (r: Self)
        ensures
            r.times == times,
            r.dice == dice,
    {
        Roll { times, dice }
    }

    /// Whether these dice can be thrown: no dice at all, or faces in
    /// `1..u32::MAX` and a largest total that fits in `u32`.
    pub fn can_throw(&self) -> (r: bool)
        ensures
            r == can_throw(self.times as nat, self.dice as nat),
    {
        if self.times == 0 {
            return true;
        }
        if self.dice < 1 || self.dice == u32::MAX {
            return false;
        }
        let times = self.times as u64;
        let dice = self.dice as u64;
        assert(times * dice <= u32::MAX * u32::MAX) by (nonlinear_arith)
            requires
                times <= u32::MAX,
                dice <= u32::MAX,
        ;
        times * dice <= u32::MAX as u64
    }

    /// Whether the dice can be thrown at all (see [`dice_usable`]).
    pub fn dice_usable(&self) -> (r: bool)
        ensures
            r == dice_usable(self.times as nat, self.dice as nat),
    {
        self.times == 0 || (1 <= self.dice && self.dice < u32::MAX)
    }

    /// Throws the dice: one face per die, each drawn by chance from the
    /// range `1..dice + 1`; the record lists every draw.
    pub fn throw(&self) -> (r: (Vec<u32>, DrawLog))
        requires
            dice_usable(self.times as nat, self.dice as nat),
        ensures
            is_throw(r.0@, self.times as nat, self.dice as nat),
            is_face_log(r.1@, r.0@, self.dice as nat),
    {
        let mut faces: Vec<u32> = Vec::new();
        let mut log = DrawLog::new();
        if self.times == 0 {
            return (faces, log);
        }
        let mut rng = thread_rng();
        let mut i: u32 = 0;
        while i < self.times
            invariant
                1 <= self.dice < u32::MAX,
                i <= self.times,
                is_throw(faces@, i as nat, self.dice as nat),
                is_face_log(log@, faces@, self.dice as nat),
            decreases self.times - i,
        {
            let face = gen_range_u32(&mut rng, 1, self.dice + 1, &mut log);
            faces.push(face);
            i = i + 1;
        }
        (faces, log)
    }

    /// The total of thrown faces.
    pub fn total(faces: &Vec<u32>) -> (t: u32)
        requires
            faces_sum(faces@) <= u32::MAX,
        ensures
            t == faces_sum(faces@),
    {
        let mut t: u32 = 0;
        let mut i: usize = 0;
        while i < faces.len()
            invariant
                i <= faces.len(),
                t == faces_sum(faces@.subrange(0, i as int)),
                faces_sum(faces@) <= u32::MAX,
            decreases faces.len() - i,
        {
            proof {
                let p = faces@.subrange(0, i + 1);
                assert(p.drop_last() =~= faces@.subrange(0, i as int));
                lemma_prefix_sum_bounded(faces@, i + 1);
            }
            t = t + faces[i];
            i = i + 1;
        }
        assert(faces@.subrange(0, i as int) =~= faces@);
        t
    }

    /// The total of thrown faces, or `None` where it does not fit in `u32`.
    pub fn total_checked(faces: &Vec<u32>) -> (t: Option<u32>)
        ensures
            match t {
                Some(v) => v == faces_sum(faces@),
                None => faces_sum(faces@) > u32::MAX,
            },
    {
        let mut t: u32 = 0;
        let mut i: usize = 0;
        while i < faces.len()
            invariant
                i <= faces.len(),
                t == faces_sum(faces@.subrange(0, i as int)),
            decreases faces.len() - i,
        {
            proof {
                assert(faces@.subrange(0, i + 1).drop_last() =~= faces@.subrange(0, i as int));
            }
            match t.checked_add(faces[i]) {
                Some(v) => {
                    t = v;
                },
                None => {
                    proof {
                        lemma_prefix_sum_bounded(faces@, i + 1);
                    }
                    return None;
                },
            }
            i = i + 1;
        }
        assert(faces@.subrange(0, i as int) =~= faces@);
        Some(t)
    }

    /// Throws the dice and adds up the faces: one draw from `1..dice + 1`
    /// per die, recorded, and the total of the drawn faces.
    pub fn roll(&self) -> (r: (u32, DrawLog))
        requires
            can_throw(self.times as nat, self.dice as nat),
        ensures
            is_face_log(r.1@, logged_faces(r.1@), self.dice as nat),
            is_throw(logged_faces(r.1@), self.times as nat, self.dice as nat),
            r.0 == faces_sum(logged_faces(r.1@)),
            self.times <= r.0 <= self.times * self.dice,
    {
        let (faces, log) = self.throw();
        assert(logged_faces(log@) =~= faces@);
        proof {
            lemma_throw_bounds(faces@, self.times as nat, self.dice as nat);
        }
        let total = Self::total(&faces);
        (total, log)
    }
}

/// A prefix of a list of faces never adds up to more than the whole list.
proof fn lemma_prefix_sum_bounded(f: Seq<u32>, k: int)
    requires
        0 <= k <= f.len(),
    ensures
        faces_sum(f.subrange(0, k)) <= faces_sum(f),
    decreases f.len() - k,
{
    if k < f.len() {
        lemma_prefix_sum_bounded(f, k + 1);
        assert(f.subrange(0, k + 1).drop_last() =~= f.subrange(0, k));
    } else {
        assert(f.subrange(0, k) =~= f);
    }
}

/// The reply that reports `total` for the request `roll`.
pub fn roll_message_text(roll: &Roll, total: u32) -> (s: String)
    ensures
        s@ == roll_message(roll.times as nat, roll.dice as nat, total as nat),
{
    let mut s = String::from_str("You rolled a d");
    push_decimal(&mut s, roll.dice as u64);
    s.append(" ");
    if roll.times >= 2 {
        s.append("s");
    } else {
        s.append("");
    }
    s.append(" time");
    push_decimal(&mut s, roll.times as u64);
    s.append(" and got a `");
    push_decimal(&mut s, total as u64);
    s.append("`");
    s
}

/// The `roll` command's reply to the notation `arg`: an apology where the
/// count or the faces are no number, else the total of one throw; `None`
/// where that throw's total does not fit in `u32` (the command then gives
/// up). The record lists the draws of the throw (none where nothing was
/// thrown).
pub fn roll_reply(arg: &str) -> (r: (Option<String>, DrawLog))
    requires
        !notation_lacks_dice(arg@),
        spec_parse_roll(arg@) matches Ok((t, d)) ==> dice_usable(t, d),
    ensures
        match spec_parse_roll(arg@) {
            Err(RollParseError::NoCount) => r.0 matches Some(m) && m@ == no_count_message()
                && r.1@.len() == 0,
            Err(RollParseError::NoDice) => r.0 matches Some(m) && m@ == no_dice_message()
                && r.1@.len() == 0,
            Ok((t, d)) => {
                let faces = logged_faces(r.1@);
                &&& is_face_log(r.1@, faces, d)
                &&& is_throw(faces, t, d)
                &&& match r.0 {
                    Some(m) => faces_sum(faces) <= u32::MAX && m@ == roll_message(
                        t,
                        d,
                        faces_sum(faces),
                    ),
                    None => faces_sum(faces) > u32::MAX,
                }
            },
        },
{
    match parse_roll(arg) {
        Err(RollParseError::NoCount) => (
            Some(
                String::from_str(
                    "I'm sorry but you did not give me a number for the amount of the rolls!",
                ),
            ),
            DrawLog::new(),
        ),
        Err(RollParseError::NoDice) => (
            Some(String::from_str("I'm sorry but you did not give me a valid dice!")),
            DrawLog::new(),
        ),
        Ok(roll) => {
            let (faces, log) = roll.throw();
            assert(logged_faces(log@) =~= faces@);
            let reply = match Roll::total_checked(&faces) {
                Some(total) => Some(roll_message_text(&roll, total)),
                None => None,
            };
            (reply, log)
        },
    }
}

} // verus!
