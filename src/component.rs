use vstd::prelude::*;

verus! {

/// The kind of message component that a follow-up event came from.
#[derive(Clone, Copy, Debug, PartialEq, Eq, Structural)]
pub enum ComponentKind {
    ActionRow,
    Button,
    SelectMenu,
    /// A kind this library does not know.
    Unknown,
}

/// A follow-up click on a component of a rendered response.
pub struct ComponentEvent {
    /// Which kind of component was used.
    pub kind: ComponentKind,
    /// The identifier the component was created with.
    pub custom_id: String,
    /// The options picked, for a select menu.
    pub values: Vec<String>,
    /// The user who clicked.
    pub user_id: u64,
}

} // verus!
