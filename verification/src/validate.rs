use vstd::prelude::*;
use crate::error::GltfError;
use crate::float::{F32, f32_lt};
use crate::text::{decimal, decimal_text, join3, join5, text_eq};

verus! {

/// What checking a part of a document comes to.
pub enum Outcome {
    /// Every rule checked holds.
    Pass,
    /// A rule is broken; the text describes the first one found.
    Reject(Seq<char>),
    /// The check reached a reference into an array that the document does
    /// not have, where the loader stops the program.
    Halt,
}

/// The first of two checks, in order, that does not pass.
pub open spec fn then(first: Outcome, second: Outcome) -> Outcome {
    match first {
        Outcome::Pass => second,
        _ => first,
    }
}

/// Why a check did not pass.
#[derive(Debug)]
pub enum Failure {
    /// A rule of the format is broken; the error says which.
    Invalid(GltfError),
    /// The check followed an index into an array the document does not have.
    Halted,
}

/// `r` is what a check returns whose outcome is `o`.
pub open spec fn reports(r: Result<(), Failure>, o: Outcome) -> bool {
    match r {
        Ok(()) => o is Pass,
        Err(Failure::Invalid(e)) => o == Outcome::Reject(e@),
        Err(Failure::Halted) => o is Halt,
    }
}

/// `r` is what a check that never halts returns, whose outcome is `o`.
pub open spec fn reports_error(r: Result<(), GltfError>, o: Outcome) -> bool {
    match r {
        Ok(()) => o is Pass,
        Err(e) => o == Outcome::Reject(e@),
    }
}

/// Turns the result of a check that never halts into a general one.
pub fn lift(r: Result<(), GltfError>) -> (out: Result<(), Failure>)
    ensures
        forall|o: Outcome| reports_error(r, o) ==> reports(out, o),
{
    match r {
        Ok(()) => Ok(()),
        Err(e) => Err(Failure::Invalid(e)),
    }
}

/// Values that the range checks compare, and the text they show for a bound.
pub trait Threshold {
    /// `self < other`.
    spec fn below(&self, other: &Self) -> bool;

    /// How the value is written in a message.
    spec fn shown(&self) -> Seq<char>;

    fn is_below(&self, other: &Self) -> (r: bool)
        ensures
            r == self.below(other),
    ;

    fn show(&self) -> (s: String)
        ensures
            s@ == self.shown(),
    ;
}

impl Threshold for usize {
    open spec fn below(&self, other: &Self) -> bool {
        *self < *other
    }

    open spec fn shown(&self) -> Seq<char> {
        decimal(*self as nat)
    }

    fn is_below(&self, other: &Self) -> (r: bool) {
        *self < *other
    }

    fn show(&self) -> (s: String) {
        decimal_text(*self)
    }
}

impl Threshold for F32 {
    open spec fn below(&self, other: &Self) -> bool {
        f32_lt(self.bits, other.bits)
    }

    open spec fn shown(&self) -> Seq<char> {
        self.text@
    }

    fn is_below(&self, other: &Self) -> (r: bool) {
        self.lt(other)
    }

    fn show(&self) -> (s: String) {
        self.text.clone()
    }
}

/// Items whose equality the uniqueness check decides by their views.
pub trait ItemEq: View {
    fn same_item(&self, other: &Self) -> (r: bool)
        ensures
            r == (self@ == other@),
    ;
}

impl ItemEq for usize {
    fn same_item(&self, other: &Self) -> (r: bool) {
        *self == *other
    }
}

impl ItemEq for String {
    fn same_item(&self, other: &Self) -> (r: bool) {
        text_eq(self.as_str(), other.as_str())
    }
}

/// Two positions of `s` hold equal items.
pub open spec fn has_duplicates<T: View>(s: Seq<T>) -> bool {
    exists|i: int, j: int| 0 <= i < j < s.len() && s[i]@ == s[j]@
}

/// Outcome of the uniqueness check of the list called `name`.
pub open spec fn unique_outcome<T: View>(s: Seq<T>, name: Seq<char>) -> Outcome {
    if has_duplicates(s) {
        Outcome::Reject("`"@ + name + "` must have unique items!"@)
    } else {
        Outcome::Pass
    }
}

/// Outcome of the check that the list called `name` is not empty.
pub open spec fn nonempty_outcome(len: nat, name: Seq<char>) -> Outcome {
    if len == 0 {
        Outcome::Reject("`"@ + name + "` must hold at least one item!"@)
    } else {
        Outcome::Pass
    }
}

/// Some item of `s` is below `bound`.
pub open spec fn some_below<T: Threshold>(s: Seq<T>, bound: T) -> bool {
    exists|i: int| 0 <= i < s.len() && s[i].below(&bound)
}

/// Some item of `s` is above `bound`.
pub open spec fn some_above<T: Threshold>(s: Seq<T>, bound: T) -> bool {
    exists|i: int| 0 <= i < s.len() && bound.below(&s[i])
}

/// Outcome of the check that every item of the list called `name` is at
/// least `min`.
pub open spec fn min_outcome<T: Threshold>(s: Seq<T>, min: T, name: Seq<char>) -> Outcome {
    if some_below(s, min) {
        if s.len() > 1 {
            Outcome::Reject(
                "Each item of `"@ + name + "` must be greater than or equal to "@ + min.shown()
                    + "!"@,
            )
        } else {
            Outcome::Reject("`"@ + name + "` must be greater than or equal to "@ + min.shown() + "!"@)
        }
    } else {
        Outcome::Pass
    }
}

/// Outcome of the check that every item of the list called `name` is at
/// most `max`.
pub open spec fn max_outcome<T: Threshold>(s: Seq<T>, max: T, name: Seq<char>) -> Outcome {
    if some_above(s, max) {
        if s.len() > 1 {
            Outcome::Reject(
                "Each item of `"@ + name + "` must be less than or equal to "@ + max.shown() + "!"@,
            )
        } else {
            Outcome::Reject("`"@ + name + "` must be less than or equal to "@ + max.shown() + "!"@)
        }
    } else {
        Outcome::Pass
    }
}

/// Rejects the list called `name` when two of its items are equal.
pub fn check_for_dup_items<T: ItemEq>(v: &Vec<T>, name: &str) -> (r: Result<(), GltfError>)
    ensures
        reports_error(r, unique_outcome(v@, name@)),
{
    let n = v.len();
    let mut i: usize = 0;
    while i < n
        invariant
            n == v@.len(),
            i <= n,
            forall|a: int, b: int| 0 <= a < b < n && a < i ==> v@[a]@ != v@[b]@,
        decreases n - i,
    {
        let mut j: usize = i + 1;
        while j < n
            invariant
                n == v@.len(),
                i < n,
                i + 1 <= j <= n,
                forall|a: int, b: int| 0 <= a < b < n && a < i ==> v@[a]@ != v@[b]@,
                forall|b: int| i < b < j ==> v@[i as int]@ != v@[b]@,
            decreases n - j,
        {
            if v[i].same_item(&v[j]) {
                return Err(GltfError::from_string(join3("`", name, "` must have unique items!")));
            }
            j = j + 1;
        }
        i = i + 1;
    }
    Ok(())
}

/// Rejects the list called `name` when it is empty.
pub fn check_if_empty<T>(v: &Vec<T>, name: &str) -> (r: Result<(), GltfError>)
    ensures
        reports_error(r, nonempty_outcome(v@.len(), name@)),
{
    if v.len() == 0 {
        return Err(GltfError::from_string(join3("`", name, "` must hold at least one item!")));
    }
    Ok(())
}

fn first_below<T: Threshold>(v: &[T], bound: &T) -> (r: bool)
    ensures
        r == some_below(v@, *bound),
{
    let n = v.len();
    let mut i: usize = 0;
    while i < n
        invariant
            n == v@.len(),
            i <= n,
            forall|k: int| 0 <= k < i ==> !v@[k].below(bound),
        decreases n - i,
    {
        if v[i].is_below(bound) {
            return true;
        }
        i = i + 1;
    }
    false
}

fn first_above<T: Threshold>(v: &[T], bound: &T) -> (r: bool)
    ensures
        r == some_above(v@, *bound),
{
    let n = v.len();
    let mut i: usize = 0;
    while i < n
        invariant
            n == v@.len(),
            i <= n,
            forall|k: int| 0 <= k < i ==> !bound.below(&v@[k]),
        decreases n - i,
    {
        if bound.is_below(&v[i]) {
            return true;
        }
        i = i + 1;
    }
    false
}

/// Rejects the list called `name` when one of its items is less than `min`.
pub fn check_items_for_min_val<T: Threshold>(v: &[T], min: T, name: &str) -> (r: Result<
    (),
    GltfError,
>)
    ensures
        reports_error(r, min_outcome(v@, min, name@)),
{
    if first_below(v, &min) {
        let shown = min.show();
        if v.len() > 1 {
            return Err(
                GltfError::from_string(
                    join5(
                        "Each item of `",
                        name,
                        "` must be greater than or equal to ",
                        shown.as_str(),
                        "!",
                    ),
                ),
            );
        } else {
            return Err(
                GltfError::from_string(
                    join5("`", name, "` must be greater than or equal to ", shown.as_str(), "!"),
                ),
            );
        }
    }
    Ok(())
}

/// Rejects the list called `name` when one of its items is greater than `max`.
pub fn check_items_for_max_val<T: Threshold>(v: &[T], max: T, name: &str) -> (r: Result<
    (),
    GltfError,
>)
    ensures
        reports_error(r, max_outcome(v@, max, name@)),
{
    if first_above(v, &max) {
        let shown = max.show();
        if v.len() > 1 {
            return Err(
                GltfError::from_string(
                    join5(
                        "Each item of `",
                        name,
                        "` must be less than or equal to ",
                        shown.as_str(),
                        "!",
                    ),
                ),
            );
        } else {
            return Err(
                GltfError::from_string(
                    join5("`", name, "` must be less than or equal to ", shown.as_str(), "!"),
                ),
            );
        }
    }
    Ok(())
}

/// Rejects the value called `name` when it is less than `min`.
pub fn check_value_min<T: Threshold>(x: T, min: T, name: &str) -> (r: Result<(), GltfError>)
    ensures
        reports_error(r, min_outcome(seq![x], min, name@)),
{
    let v = [x];
    proof {
        assert(v@ =~= seq![x]);
    }
    check_items_for_min_val(v.as_slice(), min, name)
}

/// Rejects the value called `name` when it is greater than `max`.
pub fn check_value_max<T: Threshold>(x: T, max: T, name: &str) -> (r: Result<(), GltfError>)
    ensures
        reports_error(r, max_outcome(seq![x], max, name@)),
{
    let v = [x];
    proof {
        assert(v@ =~= seq![x]);
    }
    check_items_for_max_val(v.as_slice(), max, name)
}

/// Rejects with `m` exactly when `c` holds.
pub open spec fn reject_if(c: bool, m: Seq<char>) -> Outcome {
    if c {
        Outcome::Reject(m)
    } else {
        Outcome::Pass
    }
}

/// A failed check whose message is `m`.
pub fn invalid(m: &str) -> (r: Result<(), Failure>)
    ensures
        reports(r, Outcome::Reject(m@)),
{
    Err(Failure::Invalid(GltfError::from_text(m)))
}

/// Outcome of the lower-bound check on floating-point items, stated over the
/// bound's bit pattern and text.
pub open spec fn float_min_outcome(s: Seq<F32>, bits: u32, text: Seq<char>, name: Seq<char>) -> Outcome {
    if exists|i: int| 0 <= i < s.len() && f32_lt(s[i].bits, bits) {
        if s.len() > 1 {
            Outcome::Reject(
                "Each item of `"@ + name + "` must be greater than or equal to "@ + text + "!"@,
            )
        } else {
            Outcome::Reject("`"@ + name + "` must be greater than or equal to "@ + text + "!"@)
        }
    } else {
        Outcome::Pass
    }
}

/// Outcome of the upper-bound check on floating-point items, stated over the
/// bound's bit pattern and text.
pub open spec fn float_max_outcome(s: Seq<F32>, bits: u32, text: Seq<char>, name: Seq<char>) -> Outcome {
    if exists|i: int| 0 <= i < s.len() && f32_lt(bits, s[i].bits) {
        if s.len() > 1 {
            Outcome::Reject(
                "Each item of `"@ + name + "` must be less than or equal to "@ + text + "!"@,
            )
        } else {
            Outcome::Reject("`"@ + name + "` must be less than or equal to "@ + text + "!"@)
        }
    } else {
        Outcome::Pass
    }
}

/// The range checks on floating-point items depend on the bound only through
/// its bit pattern and its text.
pub proof fn lemma_float_bounds(s: Seq<F32>, b: F32, name: Seq<char>)
    ensures
        min_outcome(s, b, name) == float_min_outcome(s, b.bits, b.text@, name),
        max_outcome(s, b, name) == float_max_outcome(s, b.bits, b.text@, name),
{
}

} // verus!
