//! Which keys dismiss an overlay, and what is done with the key event.
use crate::text::str_eq;
use vstd::prelude::*;

verus! {

/// Whether `key` is among `keys`.
pub open spec fn contains_key(keys: Seq<String>, key: Seq<char>) -> bool {
    exists|i: int| 0 <= i < keys.len() && (#[trigger] keys[i])@ == key
}

/// How a primitive listens for the keys that dismiss it.
pub struct UseEscapeKeyConfig {
    /// Whether the key's own effect is suppressed.
    pub prevent_default: bool,
    /// Whether the event is kept from the elements further out.
    pub stop_propagation: bool,
    /// Whether the primitive listens at all.
    pub enabled: bool,
    /// The keys that dismiss it besides the escape key.
    pub additional_keys: Vec<String>,
}

impl Default for UseEscapeKeyConfig {
    /// Listens for the escape key alone and leaves the event as it is.
    fn default() -> (r: UseEscapeKeyConfig)
        ensures
            !r.prevent_default,
            !r.stop_propagation,
            r.enabled,
            r.additional_keys@.len() == 0,
    {
        UseEscapeKeyConfig {
            prevent_default: false,
            stop_propagation: false,
            enabled: true,
            additional_keys: Vec::new(),
        }
    }
}

impl UseEscapeKeyConfig {
    /// Whether a primitive with this configuration answers `key`.
    pub open spec fn answers(&self, key: Seq<char>) -> bool {
        self.enabled && (key == "Escape"@ || contains_key(self.additional_keys@, key))
    }
}

/// What is done with a key event.
#[derive(Clone, Copy, Debug, PartialEq, Eq, Structural)]
pub struct KeyResponse {
    /// Whether the listener is called.
    pub handled: bool,
    /// Whether the key's own effect is suppressed.
    pub prevent_default: bool,
    /// Whether the event is kept from the elements further out.
    pub stop_propagation: bool,
}

/// Whether the listener for the escape key is called for `key`.
pub fn use_escape_key(key: &str) -> (handled: bool)
    ensures
        handled == (key@ == "Escape"@),
{
    str_eq(key, "Escape")
}

/// Whether the listener for the escape key is called for `key`: never while
/// it is not enabled.
pub fn use_escape_key_when(enabled: bool, key: &str) -> (handled: bool)
    ensures
        handled == (enabled && key@ == "Escape"@),
{
    enabled && str_eq(key, "Escape")
}

/// What is done with the event of `key` under `config`.
///
/// The listener is called for the escape key and for each additional key,
/// while the configuration is enabled. Only an event for which it is called
/// is touched.
pub fn use_escape_key_with_config(config: &UseEscapeKeyConfig, key: &str) -> (r: KeyResponse)
    ensures
        r.handled == config.answers(key@),
        r.prevent_default == (r.handled && config.prevent_default),
        r.stop_propagation == (r.handled && config.stop_propagation),
{
    let mut handled = false;
    if config.enabled {
        if str_eq(key, "Escape") {
            handled = true;
        } else {
            let mut i: usize = 0;
            while i < config.additional_keys.len()
                invariant
                    i <= config.additional_keys.len(),
                    !handled ==> forall|j: int| 0 <= j < i ==> (#[trigger] config.additional_keys@[j])@ != key@,
                    handled ==> contains_key(config.additional_keys@, key@),
                decreases config.additional_keys.len() - i,
            {
                if str_eq(config.additional_keys[i].as_str(), key) {
                    handled = true;
                }
                i = i + 1;
            }
        }
    }
    KeyResponse {
        handled,
        prevent_default: handled && config.prevent_default,
        stop_propagation: handled && config.stop_propagation,
    }
}

/// Where `key` first stands in `keys`, if anywhere.
pub open spec fn is_first_match(keys: Seq<&str>, key: Seq<char>, at: Option<usize>) -> bool {
    match at {
        Some(i) => i < keys.len() && keys[i as int]@ == key && forall|j: int|
            0 <= j < i ==> (#[trigger] keys[j])@ != key,
        None => forall|j: int| 0 <= j < keys.len() ==> (#[trigger] keys[j])@ != key,
    }
}

/// Which of several listeners, each for one key, is called for `key`: the
/// first one whose key it is, and none where there is no such listener.
pub fn use_key_combinations(keys: &Vec<&str>, key: &str) -> (r: Option<usize>)
    ensures
        is_first_match(keys@, key@, r),
{
    let mut i: usize = 0;
    while i < keys.len()
        invariant
            i <= keys.len(),
            forall|j: int| 0 <= j < i ==> (#[trigger] keys@[j])@ != key@,
        decreases keys.len() - i,
    {
        if str_eq(keys[i], key) {
            return Some(i);
        }
        i = i + 1;
    }
    None
}

} // verus!
