//! The window descriptor and the noise filter applied to the top-level
//! enumeration.
//!
//! A descriptor is a point-in-time snapshot of one OS window's identity; it
//! is never mutated, lists of them are replaced wholesale. The filter drops
//! transient and helper windows: blank class names, blank titles, and the
//! class-name prefixes of input-method and legacy-toolkit helper windows.

use vstd::prelude::*;

verus! {

/// Snapshot of one OS window's identity.
pub struct Window {
    /// The OS window-class identifier; may be empty for transient windows.
    pub class_name: String,
    /// The title/caption text; may be empty.
    pub window_text: String,
    /// The native handle, as a plain integer. Unique for the lifetime of one
    /// enumeration only; a destroyed window's handle can be reused.
    pub handle: isize,
    /// Identifier of the thread that owns the window, used to pull in
    /// sibling windows.
    pub process_id: u32,
}

impl Clone for Window {
    /// A descriptor clones field for field.
    fn clone(&self) -> (cloned: Self)
        ensures
            cloned == *self,
    {
        Window {
            class_name: self.class_name.clone(),
            window_text: self.window_text.clone(),
            handle: self.handle,
            process_id: self.process_id,
        }
    }
}

/// The class name is empty: a transient window with no identity to show.
pub open spec fn spec_is_blank_class(w: Window) -> bool {
    w.class_name@.len() == 0
}

/// The class name marks an input-method helper window.
pub open spec fn spec_is_ime_helper(w: Window) -> bool {
    "IME"@.is_prefix_of(w.class_name@)
}

/// The class name marks the text-services framework's input-method UI
/// helper window.
pub open spec fn spec_is_text_service_helper(w: Window) -> bool {
    "MSCTFIME UI"@.is_prefix_of(w.class_name@)
}

/// The class name marks a legacy GUI toolkit's internal helper window.
pub open spec fn spec_is_legacy_toolkit_helper(w: Window) -> bool {
    "WindowsForms10"@.is_prefix_of(w.class_name@)
}

/// The title text is empty.
pub open spec fn spec_is_blank_title(w: Window) -> bool {
    w.window_text@.len() == 0
}

/// A descriptor survives the top-level filter exactly when none of the
/// exclusion rules applies: the filter is a conjunction of exclusions.
pub open spec fn spec_survives(w: Window) -> bool {
    &&& !spec_is_blank_class(w)
    &&& !spec_is_ime_helper(w)
    &&& !spec_is_text_service_helper(w)
    &&& !spec_is_legacy_toolkit_helper(w)
    &&& !spec_is_blank_title(w)
}

/// The subsequence of descriptors that survive the filter, in order.
pub open spec fn spec_filtered(s: Seq<Window>) -> Seq<Window> {
    s.filter(|w: Window| spec_survives(w))
}

/// Whether `prefix` is a character-for-character prefix of `s`.
pub fn str_has_prefix(s: &str, prefix: &str) -> (is_prefix: bool)
    ensures
        is_prefix == prefix@.is_prefix_of(s@),
{
    let n = prefix.unicode_len();
    if n > s.unicode_len() {
        return false;
    }
    for i in 0..n
        invariant
            n == prefix@.len(),
            n <= s@.len(),
            forall|j: int| 0 <= j < i ==> s@[j] == prefix@[j],
    {
        if s.get_char(i) != prefix.get_char(i) {
            return false;
        }
    }
    proof {
        assert(prefix@ =~= s@.subrange(0, prefix@.len() as int));
    }
    true
}

/// Whether the descriptor passes every filter rule.
pub fn survives_filter(w: &Window) -> (survives: bool)
    ensures
        survives == spec_survives(*w),
{
    if w.class_name.unicode_len() == 0 {
        return false;
    }
    if str_has_prefix(w.class_name.as_str(), "IME") {
        return false;
    }
    if str_has_prefix(w.class_name.as_str(), "MSCTFIME UI") {
        return false;
    }
    if str_has_prefix(w.class_name.as_str(), "WindowsForms10") {
        return false;
    }
    if w.window_text.unicode_len() == 0 {
        return false;
    }
    true
}

/// Apply the noise filter to a raw top-level enumeration, keeping the
/// survivors in enumeration order.
pub fn filter_top_level(raw: &Vec<Window>) -> (kept: Vec<Window>)
    ensures
        kept@ == spec_filtered(raw@),
{
    let mut kept: Vec<Window> = Vec::new();
    let n = raw.len();
    proof {
        reveal(Seq::filter);
        assert(raw@.subrange(0, 0).filter(|w: Window| spec_survives(w)) =~= Seq::empty());
    }
    for i in 0..n
        invariant
            n == raw@.len(),
            kept@ == spec_filtered(raw@.subrange(0, i as int)),
    {
        if survives_filter(&raw[i]) {
            kept.push(raw[i].clone());
        }
        proof {
            reveal(Seq::filter);
            assert(raw@.subrange(0, i + 1).drop_last() =~= raw@.subrange(0, i as int));
            assert(raw@.subrange(0, i + 1).last() == raw@[i as int]);
            assert(kept@ == spec_filtered(raw@.subrange(0, i + 1)));
        }
    }
    proof {
        assert(raw@.subrange(0, n as int) =~= raw@);
    }
    kept
}

} // verus!
