//! State hooks: the state of each primitive and what is derived from it.
pub mod use_checkbox_state;
pub mod use_controllable_state;
pub mod use_escape_key;
pub mod use_focus_trap;
pub mod use_id_generator;
pub mod use_outside_click;
pub mod use_previous;
pub mod use_progress_state;
pub mod use_switch_state;

pub use use_checkbox_state::{use_checkbox_state, CheckedState, UseCheckboxStateReturn};
pub use use_controllable_state::{use_controllable_state, UseControllableStateReturn};
pub use use_progress_state::{
    get_progress_style, resolve_max, resolve_value, use_progress_state, Percentage, ProgressLabel,
    UseProgressStateReturn,
};
pub use use_switch_state::{use_switch_state, UseSwitchStateReturn};
pub use use_id_generator::{
    use_custom_id_pattern, use_form_ids, use_id, use_id_with_prefix, use_related_ids,
    use_stable_id, IdGenerator, UseFormIdsReturn, UseRelatedIdsReturn,
};
pub use use_escape_key::{
    use_escape_key, use_escape_key_when, use_escape_key_with_config, use_key_combinations,
    KeyResponse, UseEscapeKeyConfig,
};
pub use use_previous::{
    use_previous, use_previous_detailed, use_previous_with, UsePreviousDetailedReturn,
    UsePreviousWithReturn,
};
pub use use_focus_trap::{
    use_focus_trap, use_focus_trap_detailed, use_focus_trap_with_config, UseFocusTrapConfig,
    UseFocusTrapDetailedReturn,
};
pub use use_outside_click::{
    use_outside_click, use_outside_click_multiple, use_outside_click_with_config,
    UseOutsideClickConfig,
};
