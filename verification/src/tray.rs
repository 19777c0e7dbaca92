//! The menubar (tray) menu.

use vstd::prelude::*;

use crate::desktop::{
    refresh_account, refresh_counter, refresh_recent, toggle_label, AppState,
};
use crate::state::RECENT_LIMIT;
use crate::text::{same_text, to_decimal};

verus! {

/// An entry of the menu.
pub enum MenuEntry {
    Item { id: String, text: String, enabled: bool },
    Separator,
}

/// What a `MenuEntry` stands for.
#[verifier::ext_equal]
pub enum EntryView {
    Item { id: Seq<char>, text: Seq<char>, enabled: bool },
    Separator,
}

impl View for MenuEntry {
    type V = EntryView;

    open spec fn view(&self) -> EntryView {
        match self {
            MenuEntry::Item { id, text, enabled } => EntryView::Item {
                id: id@,
                text: text@,
                enabled: *enabled,
            },
            MenuEntry::Separator => EntryView::Separator,
        }
    }
}

/// The views of a list of entries.
pub open spec fn menu_view(menu: Seq<MenuEntry>) -> Seq<EntryView> {
    menu.map_values(|e: MenuEntry| e@)
}

/// The id of the recent item at place `i`.
pub open spec fn recent_id(i: int) -> Seq<char> {
    "recent-"@ + crate::text::decimal(i as nat)
}

/// The id of the recent item at place `i`.
pub fn recent_item_id(i: usize) -> (r: String)
    ensures
        r@ == recent_id(i as int),
{
    "recent-".to_owned().concat(to_decimal(i as u128).as_str())
}

/// The recent item at place `i`.
pub open spec fn recent_entry(app: crate::desktop::AppView, i: int) -> EntryView {
    let slot = crate::desktop::slot(app.trial.recent, i);
    EntryView::Item { id: recent_id(i), text: slot.text, enabled: slot.enabled }
}

/// The status lines at the top of the menu.
pub open spec fn head_entries(app: crate::desktop::AppView) -> Seq<EntryView> {
    seq![
        EntryView::Item {
            id: "status"@,
            text: "PixelVault — watching clipboard"@,
            enabled: false,
        },
        EntryView::Item {
            id: "account"@,
            text: crate::desktop::account_text(app.session),
            enabled: false,
        },
        EntryView::Item {
            id: "counter"@,
            text: crate::desktop::counter_text(app.trial.remaining()),
            enabled: false,
        },
        EntryView::Separator,
    ]
}

/// The recent uploads.
pub open spec fn recent_entries(app: crate::desktop::AppView) -> Seq<EntryView> {
    Seq::new(RECENT_LIMIT as nat, |i: int| recent_entry(app, i))
}

/// The commands at the bottom of the menu.
pub open spec fn foot_entries(app: crate::desktop::AppView) -> Seq<EntryView> {
    seq![
        EntryView::Separator,
        EntryView::Item {
            id: "toggle"@,
            text: crate::desktop::toggle_text(app.watching),
            enabled: true,
        },
        EntryView::Item { id: "settings"@, text: "Open Settings…"@, enabled: true },
        EntryView::Separator,
        EntryView::Item { id: "quit"@, text: "Quit PixelVault"@, enabled: true },
    ]
}

/// The menu.
pub open spec fn menu(app: crate::desktop::AppView) -> Seq<EntryView> {
    head_entries(app) + recent_entries(app) + foot_entries(app)
}

fn item(id: &str, text: String, enabled: bool) -> (r: MenuEntry)
    ensures
        r@ == (EntryView::Item { id: id@, text: text@, enabled }),
{
    MenuEntry::Item { id: id.to_owned(), text, enabled }
}

/// Lays out the menu.
pub fn build(app: &AppState) -> (r: Vec<MenuEntry>)
    ensures
        menu_view(r@) == menu(app@),
{
    let mut entries: Vec<MenuEntry> = Vec::new();
    entries.push(item("status", "PixelVault — watching clipboard".to_owned(), false));
    entries.push(item("account", refresh_account(app), false));
    entries.push(item("counter", refresh_counter(app), false));
    entries.push(MenuEntry::Separator);
    assert(menu_view(entries@) =~= head_entries(app@));
    let slots = refresh_recent(app, RECENT_LIMIT);
    assert(recent_entries(app@).take(0) =~= Seq::empty());
    for i in 0..RECENT_LIMIT
        invariant
            slots@.len() == RECENT_LIMIT,
            forall|j: int|
                0 <= j < RECENT_LIMIT ==> (#[trigger] slots@[j])@ == crate::desktop::slot(
                    app@.trial.recent,
                    j,
                ),
            menu_view(entries@) =~= head_entries(app@) + recent_entries(app@).take(i as int),
    {
        let ghost before = menu_view(entries@);
        let id = recent_item_id(i);
        entries.push(item(id.as_str(), slots[i].text.clone(), slots[i].enabled));
        assert(slots@[i as int]@ == crate::desktop::slot(app@.trial.recent, i as int));
        assert(menu_view(entries@) =~= before.push(recent_entry(app@, i as int)));
        assert(recent_entries(app@).take(i + 1) =~= recent_entries(app@).take(i as int).push(
            recent_entry(app@, i as int),
        ));
    }
    let ghost before = menu_view(entries@);
    assert(before =~= head_entries(app@) + recent_entries(app@));
    entries.push(MenuEntry::Separator);
    entries.push(item("toggle", toggle_label(app.watching), true));
    entries.push(item("settings", "Open Settings…".to_owned(), true));
    entries.push(MenuEntry::Separator);
    entries.push(item("quit", "Quit PixelVault".to_owned(), true));
    assert(menu_view(entries@) =~= before + foot_entries(app@));
    entries
}

/// What a click on an item does.
pub enum MenuAction {
    /// Pause or resume the watcher.
    Toggle,
    /// Show and focus the settings window.
    OpenSettings,
    Quit,
    /// Copy the URL of the recent upload at this place.
    CopyRecent(usize),
    Nothing,
}

/// What a click on an item does.
pub open spec fn action_of(id: Seq<char>) -> MenuAction {
    if id == "toggle"@ {
        MenuAction::Toggle
    } else if id == "settings"@ {
        MenuAction::OpenSettings
    } else if id == "quit"@ {
        MenuAction::Quit
    } else if exists|i: int| 0 <= i < RECENT_LIMIT && id == recent_id(i) {
        MenuAction::CopyRecent(
            (choose|i: int| 0 <= i < RECENT_LIMIT && id == recent_id(i)) as usize,
        )
    } else {
        MenuAction::Nothing
    }
}

proof fn recent_ids_differ(i: int, j: int)
    requires
        0 <= i,
        0 <= j,
        recent_id(i) == recent_id(j),
    ensures
        i == j,
{
    let a = crate::text::decimal(i as nat);
    let b = crate::text::decimal(j as nat);
    let head = "recent-"@;
    assert(a =~= recent_id(i).skip(head.len() as int));
    assert(b =~= recent_id(j).skip(head.len() as int));
    crate::text::decimal_is_injective(i as nat, j as nat);
}

/// Decides what a click on the item `id` does.
pub fn handle_menu(id: &str) -> (r: MenuAction)
    ensures
        r == action_of(id@),
{
    if same_text(id, "toggle") {
        return MenuAction::Toggle;
    }
    if same_text(id, "settings") {
        return MenuAction::OpenSettings;
    }
    if same_text(id, "quit") {
        return MenuAction::Quit;
    }
    for i in 0..RECENT_LIMIT
        invariant
            id@ != "toggle"@,
            id@ != "settings"@,
            id@ != "quit"@,
            forall|j: int| 0 <= j < i ==> id@ != recent_id(j),
    {
        if same_text(id, recent_item_id(i).as_str()) {
            proof {
                let k = choose|k: int| 0 <= k < RECENT_LIMIT && id@ == recent_id(k);
                recent_ids_differ(i as int, k);
            }
            return MenuAction::CopyRecent(i);
        }
    }
    MenuAction::Nothing
}

/// A click on a recent item copies the URL at its own place.
pub proof fn recent_item_copies_its_own_url(i: int)
    requires
        0 <= i < RECENT_LIMIT,
    ensures
        action_of(recent_id(i)) == MenuAction::CopyRecent(i as usize),
{
    reveal_strlit("toggle");
    reveal_strlit("settings");
    reveal_strlit("quit");
    reveal_strlit("recent-");
    let id = recent_id(i);
    assert(id[0] == 'r');
    assert("toggle"@[0] == 't');
    assert("settings"@[0] == 's');
    assert("quit"@[0] == 'q');
    let k = choose|k: int| 0 <= k < RECENT_LIMIT && id == recent_id(k);
    recent_ids_differ(i, k);
}

/// Every item of the menu that can be clicked does something when it is.
pub proof fn enabled_items_do_something(app: crate::desktop::AppView, i: int)
    requires
        0 <= i < menu(app).len(),
        menu(app)[i] is Item,
    ensures
        menu(app)[i]->enabled ==> action_of(menu(app)[i]->id) !is Nothing,
{
    let recent = recent_entries(app);
    if 4 <= i < 9 {
        assert(menu(app)[i] == recent[i - 4]);
        recent_item_copies_its_own_url(i - 4);
    }
}

/// The menu's recent items stand in their order, each with the label of the
/// upload at its own place; the status lines show who is signed in and what is
/// left, and the toggle item what it does next.
pub proof fn menus_show_the_state(app: crate::desktop::AppView, i: int)
    requires
        0 <= i < RECENT_LIMIT,
    ensures
        menu(app).len() == 14,
        menu(app)[0] == (EntryView::Item {
            id: "status"@,
            text: "PixelVault — watching clipboard"@,
            enabled: false,
        }),
        menu(app)[1]->id == "account"@,
        menu(app)[1]->text == crate::desktop::account_text(app.session),
        !menu(app)[1]->enabled,
        menu(app)[2]->id == "counter"@,
        menu(app)[2]->text == crate::desktop::counter_text(app.trial.remaining()),
        !menu(app)[2]->enabled,
        menu(app)[3] is Separator,
        menu(app)[4 + i] is Item,
        menu(app)[4 + i]->id == "recent-"@ + crate::text::decimal(i as nat),
        menu(app)[4 + i]->enabled <==> i < app.trial.recent.len(),
        i < app.trial.recent.len() ==> menu(app)[4 + i]->text == crate::desktop::label(
            app.trial.recent[i].url,
            app.trial.recent[i].private,
        ),
        i >= app.trial.recent.len() ==> menu(app)[4 + i]->text == "—"@,
        menu(app)[9] is Separator,
        menu(app)[10] == (EntryView::Item {
            id: "toggle"@,
            text: crate::desktop::toggle_text(app.watching),
            enabled: true,
        }),
        menu(app)[11] == (EntryView::Item {
            id: "settings"@,
            text: "Open Settings…"@,
            enabled: true,
        }),
        menu(app)[12] is Separator,
        menu(app)[13] == (EntryView::Item { id: "quit"@, text: "Quit PixelVault"@, enabled: true }),
{
    assert(menu(app)[4 + i] == recent_entries(app)[i]);
}

/// Each action belongs to one kind of id: nothing else triggers it.
pub proof fn actions_belong_to_their_ids(id: Seq<char>, i: int)
    requires
        0 <= i < RECENT_LIMIT,
    ensures
        action_of(id) is Toggle <==> id == "toggle"@,
        action_of(id) is OpenSettings <==> id == "settings"@,
        action_of(id) is Quit <==> id == "quit"@,
        action_of(id) == MenuAction::CopyRecent(i as usize) <==> id == "recent-"@
            + crate::text::decimal(i as nat),
        action_of(id) is CopyRecent ==> action_of(id)->CopyRecent_0 < RECENT_LIMIT,
{
    reveal_strlit("toggle");
    reveal_strlit("settings");
    reveal_strlit("quit");
    assert("toggle"@.len() == 6 && "settings"@.len() == 8 && "quit"@.len() == 4);
    recent_item_copies_its_own_url(i);
    if action_of(id) is CopyRecent {
        let k = choose|k: int| 0 <= k < RECENT_LIMIT && id == recent_id(k);
        assert(id == recent_id(k));
        assert(action_of(id) == MenuAction::CopyRecent(k as usize));
    }
}

/// The views of menu entries keep their texts.
pub proof fn menu_views_keep_their_contents(
    id: String,
    text: String,
    enabled: bool,
    entries: Seq<MenuEntry>,
    i: int,
)
    ensures
        (MenuEntry::Item { id, text, enabled })@ == (EntryView::Item {
            id: id@,
            text: text@,
            enabled,
        }),
        MenuEntry::Separator@ == EntryView::Separator,
        menu_view(entries).len() == entries.len(),
        0 <= i < entries.len() ==> menu_view(entries)[i] == entries[i]@,
{
}

/// The menu that is laid out shows the state, and a click on one of its recent
/// items copies the upload at the place that the item shows.
pub proof fn laid_out_items_do_what_they_show(
    app: &AppState,
    entries: Vec<MenuEntry>,
    i: int,
    id: &str,
    action: MenuAction,
)
    requires
        call_ensures(build, (app,), entries),
        0 <= i < RECENT_LIMIT,
        id@ == entries@[4 + i]->id@,
        call_ensures(handle_menu, (id,), action),
    ensures
        entries@.len() == 14,
        entries@[4 + i] is Item,
        entries@[4 + i]->enabled <==> i < app@.trial.recent.len(),
        i < app@.trial.recent.len() ==> entries@[4 + i]->text@ == crate::desktop::label(
            app@.trial.recent[i].url,
            app@.trial.recent[i].private,
        ),
        action == MenuAction::CopyRecent(i as usize),
{
    menus_show_the_state(app@, i);
    assert(menu_view(entries@).len() == entries@.len());
    assert(menu_view(entries@)[4 + i] == entries@[4 + i]@);
    actions_belong_to_their_ids(id@, i);
}

} // verus!
