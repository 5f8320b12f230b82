//! Bookkeeping of the demo window shell: which windows stand open, which
//! windows each account may reach, and who is logged in.  The drawing of
//! the windows is presentation glue outside the crate; every decision it
//! needs is taken here.

use crate::names::{
    lemma_push_contains, lemma_seq_remove_all_contains, lemma_seq_remove_all_distinct, name_seq,
    seq_remove_all, vec_contains_name, vec_remove_name,
};
use vstd::prelude::*;

verus! {

/// A set of window names: a list that holds each name once.
#[derive(Debug)]
pub struct NameSet {
    pub names: Vec<String>,
}

impl NameSet {
    /// The texts held, as a sequence.
    pub open spec fn seq_view(self) -> Seq<Seq<char>> {
        name_seq(self.names@)
    }

    /// True when the set holds the text `t`.
    pub open spec fn contains_name(self, t: Seq<char>) -> bool {
        self.seq_view().contains(t)
    }

    /// The texts held, as a set.
    pub open spec fn as_set(self) -> Set<Seq<char>> {
        Set::new(|t: Seq<char>| self.contains_name(t))
    }

    /// Well-formedness: no text is held twice.
    pub open spec fn wf(self) -> bool {
        forall|i: int, j: int|
            0 <= i < j < self.seq_view().len() ==> self.seq_view()[i] != self.seq_view()[j]
    }

    /// The empty set of names.
    pub fn new() -> (s: NameSet)
        ensures
            s.as_set() == Set::<Seq<char>>::empty(),
            s.wf(),
    {
        let s = NameSet { names: Vec::new() };
        assert(s.as_set() =~= Set::<Seq<char>>::empty());
        s
    }

    /// True when `key` is in the set.
    pub fn contains(&self, key: &String) -> (r: bool)
        ensures
            r == self.contains_name(key@),
    {
        vec_contains_name(&self.names, key)
    }

    /// Adds `key`; a text already held is not duplicated.
    pub fn insert(&mut self, key: String)
        requires
            old(self).wf(),
        ensures
            final(self).wf(),
            final(self).as_set() == old(self).as_set().insert(key@),
    {
        let ghost kv = key@;
        let already = vec_contains_name(&self.names, &key);
        if !already {
            self.names.push(key);
            proof {
                assert(self.seq_view() =~= old(self).seq_view().push(kv));
                assert forall|t: Seq<char>| #[trigger]
                    self.contains_name(t) == (old(self).contains_name(t) || t == kv) by {
                    lemma_push_contains(old(self).seq_view(), kv, t);
                }
            }
        }
        assert(self.as_set() =~= old(self).as_set().insert(kv));
    }

    /// Removes `key` if present.
    pub fn remove(&mut self, key: &String)
        requires
            old(self).wf(),
        ensures
            final(self).wf(),
            final(self).as_set() == old(self).as_set().remove(key@),
    {
        vec_remove_name(&mut self.names, key);
        proof {
            assert(self.seq_view() == seq_remove_all(old(self).seq_view(), key@));
            lemma_seq_remove_all_distinct(old(self).seq_view(), key@);
            assert forall|t: Seq<char>| #[trigger]
                self.contains_name(t) == (old(self).contains_name(t) && t != key@) by {
                lemma_seq_remove_all_contains(old(self).seq_view(), key@, t);
            }
            assert(self.as_set() =~= old(self).as_set().remove(key@));
        }
    }

    /// How many names the set holds.
    pub fn len(&self) -> (r: usize)
        ensures
            r == self.seq_view().len(),
    {
        self.names.len()
    }
}

/// Marks a window name open or closed in the set of open windows.
pub fn set_open(open: &mut NameSet, key: &String, is_open: bool)
    requires
        old(open).wf(),
    ensures
        final(open).wf(),
        is_open ==> final(open).as_set() == old(open).as_set().insert(key@),
        !is_open ==> final(open).as_set() == old(open).as_set().remove(key@),
{
    if is_open {
        if !open.contains(key) {
            open.insert(key.clone());
        } else {
            assert(old(open).as_set().contains(key@));
            assert(open.as_set() =~= old(open).as_set().insert(key@));
        }
    } else {
        open.remove(key);
    }
}

/// One group of demo windows, kept by window name; what each window draws
/// lives with the shell outside the crate.
#[derive(Debug)]
pub struct DemoGroup {
    pub demos: Vec<String>,
}

impl DemoGroup {
    /// A group of the given window names.
    pub fn new(demos: Vec<String>) -> (g: DemoGroup)
        ensures
            g.demos@ == demos@,
    {
        DemoGroup { demos }
    }

    /// The two groups joined, this group's windows first.
    pub fn join(self, other: DemoGroup) -> (g: DemoGroup)
        ensures
            g.demos@ == self.demos@ + other.demos@,
    {
        let mut demos = self.demos;
        let mut rest = other.demos;
        demos.append(&mut rest);
        DemoGroup { demos }
    }
}

/// The name of the window that introduces the collection.
pub fn about_window_name() -> (r: String)
    ensures
        r@ == about_name_spec(),
{
    "About".to_owned()
}

/// The text of the introductory window's name.
pub open spec fn about_name_spec() -> Seq<char> {
    "About"@
}

/// The demo windows of the shell, in registration order.
pub open spec fn demo_names_spec() -> Seq<Seq<char>> {
    seq![
        "Bézier Curve"@,
        "Code Editor"@,
        "Code Example"@,
        "Creative Studio"@,
        "Dancing Strings"@,
        "Drag and Drop"@,
        "Extra Viewport"@,
        "Font Book"@,
        "Frame"@,
        "Highlighting"@,
        "Interactive Container"@,
        "Misc Demos"@,
        "Modals"@,
        "Multi Touch"@,
        "Painting"@,
        "Panels"@,
        "Popups"@,
        "Scene"@,
        "Screenshot"@,
        "Scrolling"@,
        "Sliders"@,
        "Strip"@,
        "Table"@,
        "TextEdit"@,
        "Text Layout"@,
        "Tooltips"@,
        "Undo Redo"@,
        "Widget Gallery"@,
        "UI Widgets"@,
        "Window Options"@,
    ]
}

/// The test windows of the shell, in registration order.
pub open spec fn test_names_spec() -> Seq<Seq<char>> {
    seq![
        "Clipboard Test"@,
        "Cursor Test"@,
        "Grid Test"@,
        "Id Test"@,
        "Input Event History"@,
        "Input Test"@,
        "Layout Test"@,
        "Manual Layout Test"@,
        "SVG Test"@,
        "Tessellation Test"@,
        "Window Resize Test"@,
    ]
}

/// The names of the demo windows, in registration order.
#[verifier::rlimit(30)]
pub fn demo_window_names() -> (v: Vec<String>)
    ensures
        name_seq(v@) == demo_names_spec(),
{
    let mut v: Vec<String> = Vec::new();
    v.push("Bézier Curve".to_owned());
    v.push("Code Editor".to_owned());
    v.push("Code Example".to_owned());
    v.push("Creative Studio".to_owned());
    v.push("Dancing Strings".to_owned());
    v.push("Drag and Drop".to_owned());
    v.push("Extra Viewport".to_owned());
    v.push("Font Book".to_owned());
    v.push("Frame".to_owned());
    v.push("Highlighting".to_owned());
    v.push("Interactive Container".to_owned());
    v.push("Misc Demos".to_owned());
    v.push("Modals".to_owned());
    v.push("Multi Touch".to_owned());
    v.push("Painting".to_owned());
    v.push("Panels".to_owned());
    v.push("Popups".to_owned());
    v.push("Scene".to_owned());
    v.push("Screenshot".to_owned());
    v.push("Scrolling".to_owned());
    v.push("Sliders".to_owned());
    v.push("Strip".to_owned());
    v.push("Table".to_owned());
    v.push("TextEdit".to_owned());
    v.push("Text Layout".to_owned());
    v.push("Tooltips".to_owned());
    v.push("Undo Redo".to_owned());
    v.push("Widget Gallery".to_owned());
    v.push("UI Widgets".to_owned());
    v.push("Window Options".to_owned());
    assert(name_seq(v@) =~= demo_names_spec());
    v
}

/// The names of the test windows, in registration order.
#[verifier::rlimit(30)]
pub fn test_window_names() -> (v: Vec<String>)
    ensures
        name_seq(v@) == test_names_spec(),
{
    let mut v: Vec<String> = Vec::new();
    v.push("Clipboard Test".to_owned());
    v.push("Cursor Test".to_owned());
    v.push("Grid Test".to_owned());
    v.push("Id Test".to_owned());
    v.push("Input Event History".to_owned());
    v.push("Input Test".to_owned());
    v.push("Layout Test".to_owned());
    v.push("Manual Layout Test".to_owned());
    v.push("SVG Test".to_owned());
    v.push("Tessellation Test".to_owned());
    v.push("Window Resize Test".to_owned());
    assert(name_seq(v@) =~= test_names_spec());
    v
}

/// The window groups of the demo shell.
#[derive(Debug)]
pub struct DemoGroups {
    pub about: String,
    pub demos: DemoGroup,
    pub tests: DemoGroup,
}

impl Default for DemoGroups {
    /// The introductory window's name, every demo window and every test
    /// window, each group in registration order.
    fn default() -> (g: Self)
        ensures
            g.about@ == about_name_spec(),
            name_seq(g.demos.demos@) == demo_names_spec(),
            name_seq(g.tests.demos@) == test_names_spec(),
    {
        DemoGroups {
            about: about_window_name(),
            demos: DemoGroup::new(demo_window_names()),
            tests: DemoGroup::new(test_window_names()),
        }
    }
}

/// One account of the demo shell: its credentials, the windows it may
/// open, and whether it administers the others.
#[derive(Debug)]
pub struct User {
    pub username: String,
    pub password: String,
    pub accessible_windows: NameSet,
    pub is_admin: bool,
}

/// True when the account matches the entered credentials.
pub open spec fn credentials_match(u: User, username: Seq<char>, password: Seq<char>) -> bool {
    u.username@ == username && u.password@ == password
}

/// The account name that a login attempt with the entered credentials
/// selects: the last matching account, or `None` when none matches.
pub open spec fn login_result(users: Seq<User>, username: Seq<char>, password: Seq<char>) -> Option<
    Seq<char>,
>
    decreases users.len(),
{
    if users.len() == 0 {
        Option::<Seq<char>>::None
    } else if credentials_match(users.last(), username, password) {
        Option::Some(users.last().username@)
    } else {
        login_result(users.drop_last(), username, password)
    }
}

/// The text of an optional account name.
pub open spec fn opt_name(o: Option<String>) -> Option<Seq<char>> {
    match o {
        Option::Some(s) => Option::Some(s@),
        Option::None => Option::None,
    }
}

/// The window menu of the demo shell: the groups, the set of open
/// windows, the accounts, and the login state.
#[derive(Debug)]
pub struct DemoWindows {
    pub groups: DemoGroups,
    pub open: NameSet,
    pub users: Vec<User>,
    pub logged_in_user: Option<String>,
    pub username_input: String,
    pub password_input: String,
    pub user_management_open: bool,
}

impl DemoWindows {
    /// Well-formedness: the open set and every account's window set hold
    /// no name twice.
    pub open spec fn wf(self) -> bool {
        &&& self.open.wf()
        &&& forall|i: int|
            0 <= i < self.users@.len() ==> (#[trigger] self.users@[i]).accessible_windows.wf()
    }

    /// True when the introductory window stands open.
    pub fn about_is_open(&self) -> (r: bool)
        ensures
            r == self.open.contains_name(about_name_spec()),
    {
        let name = about_window_name();
        self.open.contains(&name)
    }

    /// A login attempt with the entered credentials: the last matching
    /// account becomes the logged-in user; with no match the login state
    /// is untouched.  Nothing else changes.
    pub fn login(&mut self)
        ensures
            final(self).groups == old(self).groups,
            final(self).open == old(self).open,
            final(self).users == old(self).users,
            final(self).username_input == old(self).username_input,
            final(self).password_input == old(self).password_input,
            final(self).user_management_open == old(self).user_management_open,
            opt_name(final(self).logged_in_user) == (match login_result(
                old(self).users@,
                old(self).username_input@,
                old(self).password_input@,
            ) {
                Option::Some(name) => Option::Some(name),
                Option::None => opt_name(old(self).logged_in_user),
            }),
    {
        let ghost un = self.username_input@;
        let ghost pw = self.password_input@;
        let mut i: usize = 0;
        while i < self.users.len()
            invariant
                i <= self.users@.len(),
                self.groups == old(self).groups,
                self.open == old(self).open,
                self.users == old(self).users,
                self.username_input == old(self).username_input,
                self.password_input == old(self).password_input,
                self.user_management_open == old(self).user_management_open,
                un == self.username_input@,
                pw == self.password_input@,
                opt_name(self.logged_in_user) == (match login_result(
                    self.users@.subrange(0, i as int),
                    un,
                    pw,
                ) {
                    Option::Some(name) => Option::Some(name),
                    Option::None => opt_name(old(self).logged_in_user),
                }),
            decreases self.users@.len() - i,
        {
            let ghost prefix = self.users@.subrange(0, i as int);
            let ghost next = self.users@.subrange(0, i + 1);
            proof {
                assert(next.drop_last() =~= prefix);
                assert(next.last() == self.users@[i as int]);
            }
            if self.users[i].username.eq(&self.username_input) && self.users[i].password.eq(
                &self.password_input,
            ) {
                self.logged_in_user = Some(self.users[i].username.clone());
            }
            i = i + 1;
        }
        proof {
            assert(self.users@.subrange(0, self.users@.len() as int) =~= self.users@);
        }
    }

    /// Ends the session of the logged-in user and clears the entered
    /// credentials.
    pub fn logout(&mut self)
        ensures
            final(self).groups == old(self).groups,
            final(self).open == old(self).open,
            final(self).users == old(self).users,
            final(self).user_management_open == old(self).user_management_open,
            final(self).logged_in_user is None,
            final(self).username_input@.len() == 0,
            final(self).password_input@.len() == 0,
    {
        self.logged_in_user = None;
        self.username_input = String::new();
        self.password_input = String::new();
    }

    /// Adds an account with the given credentials, no reachable windows,
    /// and no administrative rights.
    pub fn create_user(&mut self, username: String, password: String)
        ensures
            final(self).users@.len() == old(self).users@.len() + 1,
            forall|k: int|
                0 <= k < old(self).users@.len() ==> final(self).users@[k] == old(self).users@[k],
            final(self).users@.last().username@ == username@,
            final(self).users@.last().password@ == password@,
            final(self).users@.last().accessible_windows.as_set() == Set::<Seq<char>>::empty(),
            !final(self).users@.last().is_admin,
            final(self).groups == old(self).groups,
            final(self).open == old(self).open,
            final(self).logged_in_user == old(self).logged_in_user,
    {
        let windows = NameSet::new();
        self.users.push(
            User { username, password, accessible_windows: windows, is_admin: false },
        );
    }

    /// Removes the account at `index`.
    pub fn delete_user(&mut self, index: usize)
        requires
            index < old(self).users@.len(),
        ensures
            final(self).users@ == old(self).users@.remove(index as int),
            final(self).groups == old(self).groups,
            final(self).open == old(self).open,
            final(self).logged_in_user == old(self).logged_in_user,
    {
        self.users.remove(index);
    }

    /// Grants or withdraws one account's access to one window.
    pub fn set_user_access(&mut self, index: usize, window: &String, enabled: bool)
        requires
            index < old(self).users@.len(),
            old(self).wf(),
        ensures
            final(self).wf(),
            final(self).users@.len() == old(self).users@.len(),
            forall|k: int|
                0 <= k < old(self).users@.len() && k != index ==> final(self).users@[k] == old(
                    self,
                ).users@[k],
            final(self).users@[index as int].username == old(self).users@[index as int].username,
            final(self).users@[index as int].password == old(self).users@[index as int].password,
            final(self).users@[index as int].is_admin == old(self).users@[index as int].is_admin,
            enabled ==> final(self).users@[index as int].accessible_windows.as_set() == old(
                self,
            ).users@[index as int].accessible_windows.as_set().insert(window@),
            !enabled ==> final(self).users@[index as int].accessible_windows.as_set() == old(
                self,
            ).users@[index as int].accessible_windows.as_set().remove(window@),
            final(self).groups == old(self).groups,
            final(self).open == old(self).open,
            final(self).logged_in_user == old(self).logged_in_user,
    {
        let mut user = self.users.remove(index);
        if enabled {
            user.accessible_windows.insert(window.clone());
        } else {
            user.accessible_windows.remove(window);
        }
        self.users.insert(index, user);
        assert(self.users@ =~= old(self).users@.update(
            index as int,
            self.users@[index as int],
        ));
    }
}

/// The windows that the default shell opens at once: the introductory
/// window, the code example and the widget gallery.
pub open spec fn default_open_spec() -> Set<Seq<char>> {
    Set::<Seq<char>>::empty().insert(about_name_spec()).insert("Code Example"@).insert(
        "Widget Gallery"@,
    )
}

/// Every window of the shell, the introductory one included: what the
/// administrator account may open.
pub open spec fn all_windows_set_spec() -> Set<Seq<char>> {
    Set::<Seq<char>>::empty().insert(about_name_spec()).insert("Code Example"@).insert(
        "Creative Studio"@,
    ).insert("Widget Gallery"@).insert("Window Options"@).insert("Bézier Curve"@).insert(
        "Code Editor"@,
    ).insert("Dancing Strings"@).insert("Drag and Drop"@).insert("Extra Viewport"@).insert(
        "Font Book"@,
    ).insert("Frame"@).insert("Highlighting"@).insert("Interactive Container"@).insert(
        "Misc Demos"@,
    ).insert("Modals"@).insert("Multi Touch"@).insert("Painting"@).insert("Panels"@).insert(
        "Popups"@,
    ).insert("Scene"@).insert("Screenshot"@).insert("Scrolling"@).insert("Sliders"@).insert(
        "Strip"@,
    ).insert("Table"@).insert("TextEdit"@).insert("Text Layout"@).insert("Tooltips"@).insert(
        "Undo Redo"@,
    ).insert("UI Widgets"@)
}

/// The two windows of the first stock account.
pub open spec fn user1_windows_spec() -> Set<Seq<char>> {
    Set::<Seq<char>>::empty().insert("Widget Gallery"@).insert(about_name_spec())
}

/// The two windows of the second stock account.
pub open spec fn user2_windows_spec() -> Set<Seq<char>> {
    Set::<Seq<char>>::empty().insert("Window Options"@).insert("Code Example"@)
}

/// The set of every window name of the shell.
#[verifier::rlimit(30)]
fn all_window_names() -> (s: NameSet)
    ensures
        s.wf(),
        s.as_set() == all_windows_set_spec(),
{
    let mut s = NameSet::new();
    s.insert(about_window_name());
    s.insert("Code Example".to_owned());
    s.insert("Creative Studio".to_owned());
    s.insert("Widget Gallery".to_owned());
    s.insert("Window Options".to_owned());
    s.insert("Bézier Curve".to_owned());
    s.insert("Code Editor".to_owned());
    s.insert("Dancing Strings".to_owned());
    s.insert("Drag and Drop".to_owned());
    s.insert("Extra Viewport".to_owned());
    s.insert("Font Book".to_owned());
    s.insert("Frame".to_owned());
    s.insert("Highlighting".to_owned());
    s.insert("Interactive Container".to_owned());
    s.insert("Misc Demos".to_owned());
    s.insert("Modals".to_owned());
    s.insert("Multi Touch".to_owned());
    s.insert("Painting".to_owned());
    s.insert("Panels".to_owned());
    s.insert("Popups".to_owned());
    s.insert("Scene".to_owned());
    s.insert("Screenshot".to_owned());
    s.insert("Scrolling".to_owned());
    s.insert("Sliders".to_owned());
    s.insert("Strip".to_owned());
    s.insert("Table".to_owned());
    s.insert("TextEdit".to_owned());
    s.insert("Text Layout".to_owned());
    s.insert("Tooltips".to_owned());
    s.insert("Undo Redo".to_owned());
    s.insert("UI Widgets".to_owned());
    s
}

impl Default for DemoWindows {
    /// The stock shell: the introductory window, the code example and the
    /// widget gallery stand open; every window is registered in its
    /// group; the administrator account may open them all, the two plain
    /// accounts two windows each; nobody is logged in.
    #[verifier::rlimit(30)]
    fn default() -> (w: Self)
        ensures
            w.wf(),
            w.open.as_set() == default_open_spec(),
            w.groups.about@ == about_name_spec(),
            name_seq(w.groups.demos.demos@) == demo_names_spec(),
            name_seq(w.groups.tests.demos@) == test_names_spec(),
            w.users@.len() == 3,
            w.users@[0].username@ == "admin"@,
            w.users@[0].password@ == "admin"@,
            w.users@[0].is_admin,
            w.users@[0].accessible_windows.as_set() == all_windows_set_spec(),
            w.users@[1].username@ == "user1"@,
            w.users@[1].password@ == "password"@,
            !w.users@[1].is_admin,
            w.users@[1].accessible_windows.as_set() == user1_windows_spec(),
            w.users@[2].username@ == "user2"@,
            w.users@[2].password@ == "password"@,
            !w.users@[2].is_admin,
            w.users@[2].accessible_windows.as_set() == user2_windows_spec(),
            w.logged_in_user is None,
            w.username_input@.len() == 0,
            w.password_input@.len() == 0,
            !w.user_management_open,
    {
        let mut open = NameSet::new();
        let about = about_window_name();
        set_open(&mut open, &about, true);
        set_open(&mut open, &"Code Example".to_owned(), true);
        set_open(&mut open, &"Widget Gallery".to_owned(), true);

        let mut user1_windows = NameSet::new();
        user1_windows.insert("Widget Gallery".to_owned());
        user1_windows.insert(about_window_name());
        let mut user2_windows = NameSet::new();
        user2_windows.insert("Window Options".to_owned());
        user2_windows.insert("Code Example".to_owned());

        let mut users: Vec<User> = Vec::new();
        users.push(
            User {
                username: "admin".to_owned(),
                password: "admin".to_owned(),
                accessible_windows: all_window_names(),
                is_admin: true,
            },
        );
        users.push(
            User {
                username: "user1".to_owned(),
                password: "password".to_owned(),
                accessible_windows: user1_windows,
                is_admin: false,
            },
        );
        users.push(
            User {
                username: "user2".to_owned(),
                password: "password".to_owned(),
                accessible_windows: user2_windows,
                is_admin: false,
            },
        );
        DemoWindows {
            groups: DemoGroups::default(),
            open,
            users,
            logged_in_user: None,
            username_input: String::new(),
            password_input: String::new(),
            user_management_open: false,
        }
    }
}

} // verus!
