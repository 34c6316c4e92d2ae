//! Which input device is taken for the touch screen, and which of its events
//! count as a tap.

use vstd::prelude::*;
use crate::activation::ActivationQueue;

verus! {

/// `k` occurs in `s` starting at position `i`.
pub open spec fn occurs_at(s: Seq<char>, k: Seq<char>, i: int) -> bool {
    0 <= i && i + k.len() <= s.len() && s.subrange(i, i + k.len()) == k
}

/// `k` occurs somewhere in `s`.
pub open spec fn occurs_in(s: Seq<char>, k: Seq<char>) -> bool {
    exists|i: int| occurs_at(s, k, i)
}

/// A lower-case device name that marks a touch screen: it mentions touch or
/// one of the known touch controllers.
pub open spec fn names_touch_device(lower: Seq<char>) -> bool {
    occurs_in(lower, "touch"@) || occurs_in(lower, "ads7846"@) || occurs_in(lower, "waveshare"@)
}

/// The lower-case form of a text.
pub uninterp spec fn lowercase_of(s: Seq<char>) -> Seq<char>;

/// Relies on str::to_lowercase: the result depends on the characters alone.
#[verifier::external_body]
fn lowercase(s: &str) -> (r: String)
    ensures
        r@ == lowercase_of(s@),
{
    s.to_lowercase()
}

/// The code of the key event sent when a touch contact changes.
pub open spec fn touch_code() -> u16 {
    0x14a
}

/// Relies on evdev::Key::BTN_TOUCH and Key::code: the code it carries.
#[verifier::external_body]
fn btn_touch_code() -> (r: u16)
    ensures
        r == touch_code(),
{
    evdev::Key::BTN_TOUCH.code()
}

/// The characters of `s`, in order.
fn chars_of(s: &str) -> (r: Vec<char>)
    ensures
        r@ == s@,
{
    let n = s.unicode_len();
    let mut r: Vec<char> = Vec::new();
    let mut i: usize = 0;
    while i < n
        invariant
            n == s@.len(),
            i <= n,
            r@ == s@.subrange(0, i as int),
        decreases n - i,
    {
        r.push(s.get_char(i));
        i = i + 1;
    }
    assert(r@ =~= s@);
    r
}

/// Whether `key` occurs in `text`.
pub fn contains_text(text: &str, key: &str) -> (r: bool)
    ensures
        r == occurs_in(text@, key@),
{
    let s = chars_of(text);
    let k = chars_of(key);
    let n = s.len();
    let m = k.len();
    if m > n {
        assert(!occurs_in(text@, key@));
        return false;
    }
    let mut i: usize = 0;
    while i <= n - m
        invariant
            s@ == text@,
            k@ == key@,
            n == s@.len(),
            m == k@.len(),
            m <= n,
            i <= n - m + 1,
            forall|p: int| 0 <= p < i ==> !occurs_at(s@, k@, p),
        decreases n - m + 1 - i,
    {
        let mut j: usize = 0;
        let mut same = true;
        while j < m && same
            invariant
                s@ == text@,
                k@ == key@,
                n == s@.len(),
                m == k@.len(),
                i + m <= n,
                j <= m,
                same ==> forall|q: int| 0 <= q < j ==> s@[i + q] == k@[q],
                !same ==> j > 0 && s@[i + j - 1] != k@[j - 1],
            decreases m - j + (if same { 1int } else { 0 }),
        {
            if s[i + j] != k[j] {
                same = false;
            }
            j = j + 1;
        }
        if same {
            assert(s@.subrange(i as int, i + m) =~= k@);
            assert(occurs_at(s@, k@, i as int));
            return true;
        }
        assert(s@.subrange(i as int, i + m)[j - 1] != k@[j - 1]);
        i = i + 1;
    }
    assert forall|p: int| !occurs_at(s@, k@, p) by {
        if 0 <= p < i {
        }
    }
    false
}

/// Whether an already lower-cased device name marks a touch screen.
pub fn matches_touch_keywords(lower: &str) -> (r: bool)
    ensures
        r == names_touch_device(lower@),
{
    contains_text(lower, "touch") || contains_text(lower, "ads7846") || contains_text(lower, "waveshare")
}

/// Whether a device called `name` is taken for the touch screen; case does
/// not matter.
pub fn is_touch_device(name: &str) -> (r: bool)
    ensures
        r == names_touch_device(lowercase_of(name@)),
{
    let lower = lowercase(name);
    matches_touch_keywords(lower.as_str())
}

/// Whether an input event is the release of a touch contact: a key event on
/// the touch code with value 0.
pub fn is_touch_release(is_key: bool, code: u16, value: i32) -> (r: bool)
    ensures
        r == (is_key && code == touch_code() && value == 0),
{
    is_key && code == btn_touch_code() && value == 0
}

/// Handles one input event: a touch release queues one activation token,
/// anything else leaves the queue as it was. Returns whether it queued.
pub fn record_event(queue: &mut ActivationQueue, is_key: bool, code: u16, value: i32) -> (r: bool)
    ensures
        r == (is_key && code == touch_code() && value == 0),
        final(queue).pending() == old(queue).pending() + if r { 1nat } else { 0nat },
{
    if is_touch_release(is_key, code, value) {
        queue.push();
        true
    } else {
        false
    }
}

} // verus!
