//! The primitives: for each, its properties and the attributes it is
//! rendered with.
pub mod checkbox;
pub mod dialog;
pub mod label;
pub mod progress;
pub mod separator;
pub mod switch;

pub use progress::{
    get_progress_classes, get_progress_indicator_classes, Progress, ProgressContextValue,
    ProgressIndicator,
};
pub use separator::{get_separator_classes, Separator};
pub use switch::{
    get_aria_disabled, get_aria_required, get_data_disabled, get_switch_classes,
    get_switch_thumb_classes, handle_switch_click, handle_switch_keydown, Switch,
    SwitchContextValue, SwitchThumb,
};
pub use checkbox::{
    get_checkbox_classes, handle_checkbox_click, handle_checkbox_keydown, Checkbox,
    CheckboxContextValue, CheckboxIndicator,
};
pub use dialog::{
    Dialog, DialogClose, DialogContent, DialogEvent, DialogOverlay, DialogState, DialogTrigger,
};
pub use label::{is_form_control_tag, Label, MouseDownTarget};
