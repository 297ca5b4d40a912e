//! Translation of raw capture-construction failures into the four
//! user-facing failure categories.
use crate::log_gate::{emits, next_count, try_log};
use vstd::prelude::*;

verus! {

pub const SCRAP_UBUNTU_HIGHER_REQUIRED: &'static str = "Wayland requires Ubuntu 21.04 or higher version.";

pub const SCRAP_OTHER_VERSION_OR_X11_REQUIRED: &'static str =
    "Wayland requires higher version of linux distro. Please try X11 desktop or change your OS.";

pub const SCRAP_X11_REQUIRED: &'static str = "X11 is required";

pub const SCRAP_X11_REF_URL: &'static str = "https://rustdesk.com/docs/en/manual/linux/#x11-required";

/// The distribution whose own capture stack is known to work from a minimum version on.
pub const MANAGED_DISTRO: &'static str = "Ubuntu";

/// Versions of the managed distribution below this one (compared as strings) cannot capture.
pub const MIN_MANAGED_VERSION: &'static str = "21";

/// Markers of a failure of the desktop portal, the media server or the message bus.
pub const PORTAL_MARKER: &'static str = "org.freedesktop.portal";

pub const PIPEWIRE_MARKER: &'static str = "pipewire";

pub const DBUS_MARKER: &'static str = "dbus";

/// The category of a capture-construction failure.
#[derive(Debug)]
pub enum ClassifiedError {
    /// The managed distribution, in a version that cannot capture.
    UnsupportedOsVersion,
    /// The managed distribution failed to capture: the raw message is kept.
    PlatformCaptureFailure(String),
    /// Another distribution whose display-server stack failed: try the other protocol.
    DisplayServerMismatch,
    /// Another distribution lacking what capture needs.
    MissingDisplayServerPrerequisite,
}

impl ClassifiedError {
    /// The fixed user-facing text of the category; the raw message for a
    /// failure on a supported platform.
    pub fn message(&self) -> (r: String)
        ensures
            r@ == match self {
                ClassifiedError::UnsupportedOsVersion => SCRAP_UBUNTU_HIGHER_REQUIRED@,
                ClassifiedError::PlatformCaptureFailure(m) => m@,
                ClassifiedError::DisplayServerMismatch => SCRAP_OTHER_VERSION_OR_X11_REQUIRED@,
                ClassifiedError::MissingDisplayServerPrerequisite => SCRAP_X11_REQUIRED@,
            },
    {
        match self {
            ClassifiedError::UnsupportedOsVersion => SCRAP_UBUNTU_HIGHER_REQUIRED.to_string(),
            ClassifiedError::PlatformCaptureFailure(m) => m.clone(),
            ClassifiedError::DisplayServerMismatch => SCRAP_OTHER_VERSION_OR_X11_REQUIRED.to_string(),
            ClassifiedError::MissingDisplayServerPrerequisite => SCRAP_X11_REQUIRED.to_string(),
        }
    }
}

/// `p` occurs in `s` as a contiguous run of characters.
pub open spec fn contains_seq(s: Seq<char>, p: Seq<char>) -> bool {
    exists|i: int| 0 <= i && i + p.len() <= s.len() && #[trigger] s.subrange(i, i + p.len()) == p
}

/// Lexicographic order on characters, a proper prefix coming first: the order of `<` on strings.
pub open spec fn lex_lt(a: Seq<char>, b: Seq<char>) -> bool
    decreases a.len(),
{
    if a.len() == 0 {
        b.len() > 0
    } else if b.len() == 0 {
        false
    } else if a[0] == b[0] {
        lex_lt(a.drop_first(), b.drop_first())
    } else {
        (a[0] as u32) < (b[0] as u32)
    }
}

/// Whether the raw message names the portal, the media server or the message bus.
pub open spec fn names_display_stack(msg: Seq<char>) -> bool {
    contains_seq(msg, PORTAL_MARKER@) || contains_seq(msg, PIPEWIRE_MARKER@) || contains_seq(
        msg,
        DBUS_MARKER@,
    )
}

/// Whether the platform is the managed distribution in a version below the minimum.
pub open spec fn fast_fail(managed: bool, version: Seq<char>) -> bool {
    managed && lex_lt(version, MIN_MANAGED_VERSION@)
}

/// Whether `pat` occurs in `s`.
pub fn contains_str(s: &str, pat: &str) -> (r: bool)
    ensures
        r == contains_seq(s@, pat@),
{
    let n = s.unicode_len();
    let m = pat.unicode_len();
    if m > n {
        return false;
    }
    let mut i: usize = 0;
    while i <= n - m
        invariant
            n == s@.len(),
            m == pat@.len(),
            m <= n,
            i <= n - m + 1,
            forall|k: int| 0 <= k < i ==> #[trigger] s@.subrange(k, k + m) != pat@,
        decreases n - m + 1 - i,
    {
        let mut j: usize = 0;
        let mut same = true;
        while j < m && same
            invariant
                n == s@.len(),
                m == pat@.len(),
                i + m <= n,
                j <= m,
                forall|t: int| 0 <= t < j ==> s@[i + t] == pat@[t],
                !same ==> j < m && s@[i + j] != pat@[j as int],
            decreases m - j + if same { 1int } else { 0int },
        {
            if s.get_char(i + j) != pat.get_char(j) {
                same = false;
            } else {
                j = j + 1;
            }
        }
        if same {
            assert(s@.subrange(i as int, i + m) =~= pat@);
            return true;
        }
        assert(s@.subrange(i as int, i + m) != pat@) by {
            assert(s@.subrange(i as int, i + m)[j as int] != pat@[j as int]);
        }
        i = i + 1;
    }
    false
}

/// Whether `a` comes before `b` in the order of `<` on strings.
pub fn lex_less(a: &str, b: &str) -> (r: bool)
    ensures
        r == lex_lt(a@, b@),
{
    let na = a.unicode_len();
    let nb = b.unicode_len();
    let mut i: usize = 0;
    proof {
        assert(a@.subrange(0, na as int) =~= a@);
        assert(b@.subrange(0, nb as int) =~= b@);
    }
    while i < na && i < nb
        invariant
            na == a@.len(),
            nb == b@.len(),
            i <= na,
            i <= nb,
            lex_lt(a@, b@) == lex_lt(a@.subrange(i as int, na as int), b@.subrange(i as int, nb as int)),
        decreases na - i,
    {
        let ca = a.get_char(i);
        let cb = b.get_char(i);
        let ghost sa = a@.subrange(i as int, na as int);
        let ghost sb = b@.subrange(i as int, nb as int);
        assert(sa[0] == ca && sb[0] == cb);
        if ca != cb {
            return (ca as u32) < (cb as u32);
        }
        assert(sa.drop_first() =~= a@.subrange(i + 1, na as int));
        assert(sb.drop_first() =~= b@.subrange(i + 1, nb as int));
        i = i + 1;
    }
    i == na && i < nb
}

/// The result of `str::to_uppercase` on these characters.
pub uninterp spec fn upper_of(s: Seq<char>) -> Seq<char>;

/// Relies on `str::to_uppercase`: the upper-case form depends on the characters alone.
#[verifier::external_body]
fn to_upper(s: &str) -> (r: String)
    ensures
        r@ == upper_of(s@),
{
    s.to_uppercase()
}

/// The category of a failure with raw message `msg`, on a platform that is
/// (`managed`) or is not the managed distribution, in version `version`.
pub open spec fn category(managed: bool, version: Seq<char>, msg: String) -> ClassifiedError {
    if managed {
        if lex_lt(version, MIN_MANAGED_VERSION@) {
            ClassifiedError::UnsupportedOsVersion
        } else {
            ClassifiedError::PlatformCaptureFailure(msg)
        }
    } else if names_display_stack(msg@) {
        ClassifiedError::DisplayServerMismatch
    } else {
        ClassifiedError::MissingDisplayServerPrerequisite
    }
}

/// Classifies the failure `err` on a platform whose upper-cased name is
/// `name_upper`, where `managed_upper` is the upper-cased name of the managed
/// distribution. Every failure but the fast one on an old managed version is
/// recorded in the log counter; `r.1` tells whether to log `err`.
pub fn classify_folded(
    name_upper: &str,
    managed_upper: &str,
    version_id: &str,
    err: String,
    log_count: &mut u32,
) -> (r: (ClassifiedError, bool))
    ensures
        r.0 == category(name_upper@ == managed_upper@, version_id@, err),
        fast_fail(name_upper@ == managed_upper@, version_id@) ==> !r.1 && *final(log_count)
            == *old(log_count),
        !fast_fail(name_upper@ == managed_upper@, version_id@) ==> r.1 == emits(
            *old(log_count) as nat,
        ) && *final(log_count) as nat == next_count(*old(log_count) as nat),
{
    let managed = str_eq(name_upper, managed_upper);
    if managed {
        if lex_less(version_id, MIN_MANAGED_VERSION) {
            (ClassifiedError::UnsupportedOsVersion, false)
        } else {
            let emit = try_log(log_count);
            (ClassifiedError::PlatformCaptureFailure(err), emit)
        }
    } else {
        let emit = try_log(log_count);
        if contains_str(&err, PORTAL_MARKER) || contains_str(&err, PIPEWIRE_MARKER) || contains_str(
            &err,
            DBUS_MARKER,
        ) {
            (ClassifiedError::DisplayServerMismatch, emit)
        } else {
            (ClassifiedError::MissingDisplayServerPrerequisite, emit)
        }
    }
}

/// Whether two strings hold the same characters.
pub fn str_eq(a: &str, b: &str) -> (r: bool)
    ensures
        r == (a@ == b@),
{
    let n = a.unicode_len();
    if n != b.unicode_len() {
        return false;
    }
    let mut i: usize = 0;
    while i < n
        invariant
            n == a@.len(),
            n == b@.len(),
            i <= n,
            forall|k: int| 0 <= k < i ==> a@[k] == b@[k],
        decreases n - i,
    {
        if a.get_char(i) != b.get_char(i) {
            return false;
        }
        i = i + 1;
    }
    assert(a@ =~= b@);
    true
}

/// Classifies the capture-construction failure `err` on the platform named
/// `distro_name` (compared with the managed distribution without regard to
/// case) in version `version_id`, and records it in the log counter
/// `log_count` unless the platform is an old managed version. `r.1` tells
/// whether `err` is to be logged at error severity.
pub fn map_err_scrap(err: String, distro_name: &str, version_id: &str, log_count: &mut u32) -> (r: (
    ClassifiedError,
    bool,
))
    ensures
        r.0 == category(upper_of(distro_name@) == upper_of(MANAGED_DISTRO@), version_id@, err),
        fast_fail(upper_of(distro_name@) == upper_of(MANAGED_DISTRO@), version_id@) ==> !r.1
            && *final(log_count) == *old(log_count),
        !fast_fail(upper_of(distro_name@) == upper_of(MANAGED_DISTRO@), version_id@) ==> r.1
            == emits(*old(log_count) as nat) && *final(log_count) as nat == next_count(
            *old(log_count) as nat,
        ),
{
    let name_upper = to_upper(distro_name);
    let managed_upper = to_upper(MANAGED_DISTRO);
    classify_folded(name_upper.as_str(), managed_upper.as_str(), version_id, err, log_count)
}

/// The extra error text shown for the running platform: none is known for any.
pub fn common_get_error() -> (r: String)
    ensures
        r@ == Seq::<char>::empty(),
{
    String::new()
}

} // verus!
