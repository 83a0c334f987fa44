use vstd::prelude::*;

verus! {

/// Identifier of the tray menu entry that quits the application.
pub open spec fn quit_id_spec() -> Seq<char> {
    seq!['q', 'u', 'i', 't']
}

/// Label shown on the quit entry.
pub open spec fn quit_label_spec() -> Seq<char> {
    seq!['Q', 'u', 'i', 't']
}

/// One selectable entry of the tray's context menu.
pub struct MenuEntry {
    /// Stable identifier that menu events carry.
    pub id: String,
    /// Human-readable text of the entry.
    pub label: String,
    /// Whether the entry can be selected.
    pub enabled: bool,
}

/// The single entry of the tray menu: enabled, labelled "Quit", identified by "quit".
pub fn quit_entry() -> (r: MenuEntry)
    ensures
        r.id@ == quit_id_spec(),
        r.label@ == quit_label_spec(),
        r.enabled,
{
    proof {
        reveal_strlit("quit");
        reveal_strlit("Quit");
    }
    let id = "quit".to_owned();
    let label = "Quit".to_owned();
    assert(id@ =~= quit_id_spec());
    assert(label@ =~= quit_label_spec());
    MenuEntry { id, label, enabled: true }
}

/// Returns true exactly when `id` names the quit entry.
pub fn is_quit_id(id: &str) -> (r: bool)
    ensures
        r == (id@ == quit_id_spec()),
{
    let given = id.to_owned();
    let quit = "quit".to_owned();
    proof {
        reveal_strlit("quit");
    }
    let r = given == quit;
    assert(quit@ =~= quit_id_spec());
    r
}

} // verus!
