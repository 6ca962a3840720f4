//! The form widgets. Each one owns its state by value and reacts to one key
//! at a time through `handle_key`, whose contract is the widget's transition
//! function over its view.

pub mod list_input;
pub mod paired_input;
pub mod searchable_list;
pub mod single_select;
pub mod text_input;
pub mod toggle;

pub use crate::ui::keys::Key;
pub use list_input::{ListInput, ListInputMode, ListInputView};
pub use paired_input::{PairedField, PairedInput, PairedInputMode, PairedInputView};
pub use searchable_list::{ListItem, ListItemView, ListMode, SearchableList, SearchableListView};
pub use single_select::{SingleSelect, SingleSelectView};
pub use text_input::{TextInput, TextInputView};
pub use toggle::{Toggle, ToggleView};
