//! The configuration: key bindings and styles, scene by scene, and the
//! grammars in which they are written.

pub mod keys;
pub mod style;

pub use keys::{_key_event_to_string, parse_key_event, parse_key_sequence};
pub use style::{parse_color, parse_style, process_color_string};

use crate::action::scene::Scene;
use crate::action::{named, Action, ActionView};
use keys::{keys_match, named_key_sequence, same_keys, KeyEvent};
use style::Style;
use vstd::prelude::*;

verus! {

/// Where the application keeps its data and its configuration: the paths of
/// the two directories.
#[derive(Debug, Clone, PartialEq, Eq, Hash)]
pub struct AppConfig {
    pub _data_dir: String,
    pub _config_dir: String,
}

impl Default for AppConfig {
    fn default() -> (config: AppConfig)
        ensures
            config._data_dir@.len() == 0,
            config._config_dir@.len() == 0,
    {
        AppConfig { _data_dir: String::new(), _config_dir: String::new() }
    }
}

/// A run of key strokes and the action that it triggers.
#[derive(Debug, Clone)]
pub struct Binding {
    pub keys: Vec<KeyEvent>,
    pub action: Action,
}

impl View for Binding {
    type V = (Seq<KeyEvent>, ActionView);

    open spec fn view(&self) -> (Seq<KeyEvent>, ActionView) {
        (self.keys@, self.action@)
    }
}

/// The action of the first binding of the list whose keys are the given
/// ones.
pub open spec fn bound_action(bindings: Seq<(Seq<KeyEvent>, ActionView)>, keys: Seq<KeyEvent>)
    -> Option<ActionView>
    decreases bindings.len(),
{
    if bindings.len() == 0 {
        None
    } else if same_keys(bindings[0].0, keys) {
        Some(bindings[0].1)
    } else {
        bound_action(bindings.subrange(1, bindings.len() as int), keys)
    }
}

/// In a list made of two, a run of keys is bound as in the first, and where
/// the first does not bind it, as in the second.
pub proof fn lemma_bound_action_concat(
    first: Seq<(Seq<KeyEvent>, ActionView)>,
    second: Seq<(Seq<KeyEvent>, ActionView)>,
    keys: Seq<KeyEvent>,
)
    ensures
        bound_action(first + second, keys) == match bound_action(first, keys) {
            Some(action) => Some(action),
            None => bound_action(second, keys),
        },
    decreases first.len(),
{
    if first.len() == 0 {
        assert(first + second == second);
    } else {
        let rest = first.subrange(1, first.len() as int);
        assert((first + second).subrange(1, (first + second).len() as int) == rest + second);
        assert((first + second)[0] == first[0]);
        lemma_bound_action_concat(rest, second, keys);
    }
}

/// The bindings that a list of written bindings holds: each entry gives the
/// keys and the action as the configuration writes them, and an entry that
/// cannot be read is left out.
pub open spec fn written_bindings(entries: Seq<(Seq<char>, Seq<char>)>) -> Seq<
    (Seq<KeyEvent>, ActionView),
>
    decreases entries.len(),
{
    if entries.len() == 0 {
        Seq::empty()
    } else {
        let before = written_bindings(entries.drop_last());
        match (named_key_sequence(entries.last().0), named(entries.last().1)) {
            (Ok(keys), Ok(action)) => before.push((keys, action)),
            _ => before,
        }
    }
}

/// The key bindings of one scene: a list in which the first binding of a run
/// of keys counts.
#[derive(Debug, Clone)]
pub struct KeyMap {
    pub bindings: Vec<Binding>,
}

impl View for KeyMap {
    type V = Seq<(Seq<KeyEvent>, ActionView)>;

    open spec fn view(&self) -> Seq<(Seq<KeyEvent>, ActionView)> {
        self.bindings@.map_values(|b: Binding| b@)
    }
}

impl KeyMap {
    /// The action that the keys trigger, if any.
    pub open spec fn action_for(self, keys: Seq<KeyEvent>) -> Option<ActionView> {
        bound_action(self@, keys)
    }

    /// A key map without bindings.
    pub fn new() -> (map: KeyMap)
        ensures
            map@ == Seq::<(Seq<KeyEvent>, ActionView)>::empty(),
    {
        let map = KeyMap { bindings: Vec::new() };
        assert(map@ == Seq::<(Seq<KeyEvent>, ActionView)>::empty());
        map
    }

    /// The action that the keys trigger, if any.
    pub fn get(&self, keys: &Vec<KeyEvent>) -> (action: Option<&Action>)
        ensures
            match action {
                Some(a) => self.action_for(keys@) == Some(a@),
                None => self.action_for(keys@) is None,
            },
    {
        let mut i: usize = 0;
        assert(self@.subrange(0, self@.len() as int) == self@);
        while i < self.bindings.len()
            invariant
                i <= self.bindings.len(),
                self@.len() == self.bindings.len(),
                bound_action(self@.subrange(i as int, self@.len() as int), keys@) == bound_action(
                    self@,
                    keys@,
                ),
            decreases self.bindings.len() - i,
        {
            let ghost rest = self@.subrange(i as int, self@.len() as int);
            assert(rest[0] == self.bindings@[i as int]@);
            assert(rest.subrange(1, rest.len() as int) == self@.subrange(
                i + 1,
                self@.len() as int,
            ));
            if keys_match(&self.bindings[i].keys, keys) {
                return Some(&self.bindings[i].action);
            }
            i += 1;
        }
        None
    }

    /// Binds the keys to the action where nothing binds them yet: the new
    /// binding stands behind all others.
    pub fn insert_default(&mut self, keys: Vec<KeyEvent>, action: Action)
        ensures
            final(self)@ == old(self)@.push((keys@, action@)),
            forall|q: Seq<KeyEvent>| #[trigger]
                final(self).action_for(q) == match old(self).action_for(q) {
                    Some(a) => Some(a),
                    None => if same_keys(keys@, q) {
                        Some(action@)
                    } else {
                        None
                    },
                },
    {
        let ghost before = self@;
        let ghost added = (keys@, action@);
        self.bindings.push(Binding { keys, action });
        assert(self@ == before.push(added));
        assert forall|q: Seq<KeyEvent>| #[trigger]
            self.action_for(q) == match bound_action(before, q) {
                Some(a) => Some(a),
                None => if same_keys(added.0, q) {
                    Some(added.1)
                } else {
                    None
                },
            } by {
            lemma_bound_action_concat(before, seq![added], q);
            assert(before.push(added) == before + seq![added]);
            let one = seq![added];
            let none = one.subrange(1, one.len() as int);
            assert(none.len() == 0);
            assert(bound_action(none, q) is None);
            assert(one[0] == added);
        }
    }

    /// Binds the keys to the action, whatever bound them before: the new
    /// binding stands before all others.
    pub fn insert(&mut self, keys: Vec<KeyEvent>, action: Action)
        ensures
            final(self)@ == seq![(keys@, action@)] + old(self)@,
            forall|q: Seq<KeyEvent>| #[trigger]
                final(self).action_for(q) == if same_keys(keys@, q) {
                    Some(action@)
                } else {
                    old(self).action_for(q)
                },
    {
        let ghost before = self@;
        let ghost added = (keys@, action@);
        self.bindings.insert(0, Binding { keys, action });
        assert(self@ == seq![added] + before);
        assert((seq![added] + before).subrange(1, before.len() as int + 1) == before);
    }

    /// Reads a binding as the configuration writes it, and adds it behind
    /// all others. Returns whether both texts could be read; if not, nothing
    /// is added.
    pub fn bind_written(&mut self, keys: &str, action: &str) -> (read: bool)
        ensures
            read == (named_key_sequence(keys@) is Ok && named(action@) is Ok),
            final(self)@ == old(self)@ + written_bindings(seq![(keys@, action@)]),
    {
        let ghost entry = (keys@, action@);
        assert(seq![entry].drop_last() == Seq::<(Seq<char>, Seq<char>)>::empty());
        assert(written_bindings(seq![entry].drop_last()) == Seq::<
            (Seq<KeyEvent>, ActionView),
        >::empty());
        let ghost before = self@;
        match parse_key_sequence(keys) {
            Ok(k) => match Action::parse(action) {
                Ok(a) => {
                    self.insert_default(k, a);
                    assert(written_bindings(seq![entry]) == seq![(k@, a@)]);
                    assert(before.push((k@, a@)) == before + seq![(k@, a@)]);
                    true
                },
                Err(_) => {
                    assert(written_bindings(seq![entry]) == Seq::<
                        (Seq<KeyEvent>, ActionView),
                    >::empty());
                    assert(before + Seq::<(Seq<KeyEvent>, ActionView)>::empty() == before);
                    false
                },
            },
            Err(_) => {
                assert(written_bindings(seq![entry]) == Seq::<
                    (Seq<KeyEvent>, ActionView),
                >::empty());
                assert(before + Seq::<(Seq<KeyEvent>, ActionView)>::empty() == before);
                false
            },
        }
    }

    /// Adds the bindings of `defaults` behind those of `self`, so that a
    /// run of keys keeps its action where `self` binds it, and gets that of
    /// `defaults` where it does not.
    pub fn merge_defaults(&mut self, defaults: &KeyMap)
        ensures
            final(self)@ == old(self)@ + defaults@,
            forall|q: Seq<KeyEvent>| #[trigger]
                final(self).action_for(q) == match old(self).action_for(q) {
                    Some(a) => Some(a),
                    None => defaults.action_for(q),
                },
    {
        let ghost before = self@;
        let mut i: usize = 0;
        assert(defaults@.subrange(0, 0) == Seq::<(Seq<KeyEvent>, ActionView)>::empty());
        assert(before + Seq::<(Seq<KeyEvent>, ActionView)>::empty() == before);
        while i < defaults.bindings.len()
            invariant
                i <= defaults.bindings.len(),
                defaults@.len() == defaults.bindings.len(),
                self@ == before + defaults@.subrange(0, i as int),
            decreases defaults.bindings.len() - i,
        {
            let binding = &defaults.bindings[i];
            let keys = copy_keys(&binding.keys);
            let action = binding.action.duplicate();
            assert(defaults@[i as int] == (keys@, action@));
            assert(defaults@.subrange(0, i + 1) == defaults@.subrange(0, i as int).push(
                defaults@[i as int],
            ));
            self.insert_default(keys, action);
            i += 1;
        }
        assert(defaults@.subrange(0, defaults@.len() as int) == defaults@);
        assert forall|q: Seq<KeyEvent>| #[trigger]
            self.action_for(q) == match bound_action(before, q) {
                Some(a) => Some(a),
                None => defaults.action_for(q),
            } by {
            lemma_bound_action_concat(before, defaults@, q);
        }
    }
}

/// A copy of a run of key strokes.
pub fn copy_keys(keys: &Vec<KeyEvent>) -> (copy: Vec<KeyEvent>)
    ensures
        copy@ == keys@,
{
    let mut copy: Vec<KeyEvent> = Vec::new();
    let mut i: usize = 0;
    while i < keys.len()
        invariant
            i <= keys.len(),
            copy@ == keys@.subrange(0, i as int),
        decreases keys.len() - i,
    {
        copy.push(keys[i]);
        i += 1;
    }
    copy
}

/// The key bindings of every scene. A scene has a key map or none.
#[derive(Debug, Clone)]
pub struct KeyBindings {
    pub internals: Option<KeyMap>,
    pub data: Option<KeyMap>,
    pub session: Option<KeyMap>,
    pub about: Option<KeyMap>,
    pub home: Option<KeyMap>,
}

impl Default for KeyBindings {
    fn default() -> (bindings: KeyBindings)
        ensures
            forall|scene: Scene| bindings.of(scene) is None,
    {
        KeyBindings { internals: None, data: None, session: None, about: None, home: None }
    }
}

/// The bindings that every key map has: the changes of scene and of view,
/// the usage overlay, and the ways to quit and to suspend.
pub open spec fn common_bindings() -> Seq<(Seq<char>, Seq<char>)> {
    seq![
        ("<H>"@, "ChangeScene(Home)"@),
        ("<S>"@, "ChangeScene(Session)"@),
        ("<I>"@, "ChangeScene(Internals)"@),
        ("<A>"@, "ChangeView(A)"@),
        ("<L>"@, "ChangeView(L)"@),
        ("<R>"@, "ChangeView(R)"@),
        ("<?>"@, "ToggleOverlay(UsageInfo)"@),
        ("<q>"@, "Quit"@),
        ("<Ctrl-d>"@, "Quit"@),
        ("<Ctrl-c>"@, "Quit"@),
        ("<Ctrl-z>"@, "Suspend"@),
    ]
}

/// The bindings that a scene has where the configuration says nothing: the
/// common ones and, in the scenes that have a prompt, the key that opens it.
/// Only the home, session and internals scenes have bindings of their own.
pub open spec fn default_bindings(scene: Scene) -> Option<Seq<(Seq<char>, Seq<char>)>> {
    match scene {
        Scene::Home => Some(common_bindings().push(("<E>"@, "ChangeView(Prompt)"@))),
        Scene::Session => Some(common_bindings().push(("<.>"@, "ChangeView(Prompt)"@))),
        Scene::Internals => Some(common_bindings()),
        _ => None,
    }
}

impl KeyBindings {
    /// The key map of a scene, if it has one.
    pub open spec fn of(self, scene: Scene) -> Option<KeyMap> {
        match scene {
            Scene::Internals => self.internals,
            Scene::Data => self.data,
            Scene::Session => self.session,
            Scene::About => self.about,
            Scene::Home => self.home,
        }
    }

    /// The action that the keys trigger in the scene, if any.
    pub open spec fn action_for(self, scene: Scene, keys: Seq<KeyEvent>) -> Option<ActionView> {
        match self.of(scene) {
            Some(map) => map.action_for(keys),
            None => None,
        }
    }

    /// The key map of a scene, if it has one.
    pub fn get(&self, scene: &Scene) -> (map: Option<&KeyMap>)
        ensures
            match map {
                Some(m) => self.of(*scene) == Some(*m),
                None => self.of(*scene) is None,
            },
    {
        match scene {
            Scene::Internals => self.internals.as_ref(),
            Scene::Data => self.data.as_ref(),
            Scene::Session => self.session.as_ref(),
            Scene::About => self.about.as_ref(),
            Scene::Home => self.home.as_ref(),
        }
    }

    /// Gives the scene this key map, in place of the one it had.
    pub fn set(&mut self, scene: Scene, map: KeyMap)
        ensures
            final(self).of(scene) == Some(map),
            forall|other: Scene| other != scene ==> final(self).of(other) == old(self).of(other),
    {
        match scene {
            Scene::Internals => self.internals = Some(map),
            Scene::Data => self.data = Some(map),
            Scene::Session => self.session = Some(map),
            Scene::About => self.about = Some(map),
            Scene::Home => self.home = Some(map),
        }
    }

    /// Takes the key map of a scene out, leaving the scene without one.
    fn take(&mut self, scene: Scene) -> (map: Option<KeyMap>)
        ensures
            map == old(self).of(scene),
            final(self).of(scene) is None,
            forall|other: Scene| other != scene ==> final(self).of(other) == old(self).of(other),
    {
        match scene {
            Scene::Internals => self.internals.take(),
            Scene::Data => self.data.take(),
            Scene::Session => self.session.take(),
            Scene::About => self.about.take(),
            Scene::Home => self.home.take(),
        }
    }

    /// The common bindings, added behind those of the map.
    fn bind_common(map: &mut KeyMap)
        ensures
            final(map)@ == old(map)@ + written_bindings(common_bindings()),
    {
        let ghost before = map@;
        let ghost all = common_bindings();
        assert(written_bindings(all.subrange(0, 0)) == Seq::<(Seq<KeyEvent>, ActionView)>::empty());
        assert(before + Seq::<(Seq<KeyEvent>, ActionView)>::empty() == before);
        map.bind_written("<H>", "ChangeScene(Home)");
        proof {
            lemma_written_step(before, all, 0, map@);
        }
        map.bind_written("<S>", "ChangeScene(Session)");
        proof {
            lemma_written_step(before, all, 1, map@);
        }
        map.bind_written("<I>", "ChangeScene(Internals)");
        proof {
            lemma_written_step(before, all, 2, map@);
        }
        map.bind_written("<A>", "ChangeView(A)");
        proof {
            lemma_written_step(before, all, 3, map@);
        }
        map.bind_written("<L>", "ChangeView(L)");
        proof {
            lemma_written_step(before, all, 4, map@);
        }
        map.bind_written("<R>", "ChangeView(R)");
        proof {
            lemma_written_step(before, all, 5, map@);
        }
        map.bind_written("<?>", "ToggleOverlay(UsageInfo)");
        proof {
            lemma_written_step(before, all, 6, map@);
        }
        map.bind_written("<q>", "Quit");
        proof {
            lemma_written_step(before, all, 7, map@);
        }
        map.bind_written("<Ctrl-d>", "Quit");
        proof {
            lemma_written_step(before, all, 8, map@);
        }
        map.bind_written("<Ctrl-c>", "Quit");
        proof {
            lemma_written_step(before, all, 9, map@);
        }
        map.bind_written("<Ctrl-z>", "Suspend");
        proof {
            lemma_written_step(before, all, 10, map@);
            assert(all.subrange(0, 11) == all);
        }
    }

    /// The key map that a scene has where the configuration says nothing.
    pub fn default_map(scene: Scene) -> (map: Option<KeyMap>)
        ensures
            match map {
                Some(m) => default_bindings(scene) is Some && m@ == written_bindings(
                    default_bindings(scene)->Some_0,
                ),
                None => default_bindings(scene) is None,
            },
    {
        match scene {
            Scene::Home => {
                let mut map = KeyMap::new();
                KeyBindings::bind_common(&mut map);
                assert(map@ == written_bindings(common_bindings()));
                let ghost all = common_bindings().push(("<E>"@, "ChangeView(Prompt)"@));
                assert(all.subrange(0, 11) == common_bindings());
                map.bind_written("<E>", "ChangeView(Prompt)");
                proof {
                    lemma_written_step(Seq::empty(), all, 11, map@);
                    assert(all.subrange(0, 12) == all);
                }
                Some(map)
            },
            Scene::Session => {
                let mut map = KeyMap::new();
                KeyBindings::bind_common(&mut map);
                assert(map@ == written_bindings(common_bindings()));
                let ghost all = common_bindings().push(("<.>"@, "ChangeView(Prompt)"@));
                assert(all.subrange(0, 11) == common_bindings());
                map.bind_written("<.>", "ChangeView(Prompt)");
                proof {
                    lemma_written_step(Seq::empty(), all, 11, map@);
                    assert(all.subrange(0, 12) == all);
                }
                Some(map)
            },
            Scene::Internals => {
                let mut map = KeyMap::new();
                KeyBindings::bind_common(&mut map);
                assert(map@ == written_bindings(common_bindings()));
                Some(map)
            },
            _ => None,
        }
    }

    /// Completes the bindings of one scene by the defaults of that scene.
    fn merge_scene(&mut self, scene: Scene)
        ensures
            final(self).merged_scene(*old(self), scene),
            forall|other: Scene| other != scene ==> final(self).of(other) == old(self).of(other),
    {
        match KeyBindings::default_map(scene) {
            Some(defaults) => {
                let mut map = match self.take(scene) {
                    Some(map) => map,
                    None => KeyMap::new(),
                };
                map.merge_defaults(&defaults);
                self.set(scene, map);
            },
            None => {},
        }
    }

    /// What [`KeyBindings::merge_defaults`] does to one scene: where the
    /// scene has defaults, it has a key map afterwards, which holds the
    /// bindings that it had and behind them the defaults; else nothing
    /// changes.
    pub open spec fn merged_scene(self, before: KeyBindings, scene: Scene) -> bool {
        match default_bindings(scene) {
            Some(defaults) => self.of(scene) is Some && self.of(scene)->Some_0@ == (match before.of(
                scene,
            ) {
                Some(map) => map@,
                None => Seq::empty(),
            }) + written_bindings(defaults),
            None => self.of(scene) == before.of(scene),
        }
    }

    /// Completes the bindings by the defaults: in every scene a run of keys
    /// keeps the action that it has, and gets that of the defaults where it
    /// has none.
    pub fn merge_defaults(&mut self)
        ensures
            forall|scene: Scene| #[trigger] final(self).merged_scene(*old(self), scene),
    {
        self.merge_scene(Scene::Internals);
        self.merge_scene(Scene::Data);
        self.merge_scene(Scene::Session);
        self.merge_scene(Scene::About);
        self.merge_scene(Scene::Home);
    }
}

/// One step of writing a list of bindings into a key map: where the map held
/// the first `n` entries behind what it held before, and the entry `n` has
/// been written behind them, it holds the first `n + 1`.
proof fn lemma_written_step(
    before: Seq<(Seq<KeyEvent>, ActionView)>,
    all: Seq<(Seq<char>, Seq<char>)>,
    n: int,
    now: Seq<(Seq<KeyEvent>, ActionView)>,
)
    requires
        0 <= n < all.len(),
        now == before + written_bindings(all.subrange(0, n)) + written_bindings(seq![all[n]]),
    ensures
        now == before + written_bindings(all.subrange(0, n + 1)),
{
    let upto = all.subrange(0, n + 1);
    assert(upto.drop_last() == all.subrange(0, n));
    assert(upto.last() == all[n]);
    let one = seq![all[n]];
    assert(one.drop_last() == Seq::<(Seq<char>, Seq<char>)>::empty());
    assert(one.last() == all[n]);
    assert(written_bindings(one.drop_last()) == Seq::<(Seq<KeyEvent>, ActionView)>::empty());
    let head = written_bindings(all.subrange(0, n));
    match (named_key_sequence(all[n].0), named(all[n].1)) {
        (Ok(keys), Ok(action)) => {
            assert(written_bindings(one) == seq![(keys, action)]);
            assert(written_bindings(upto) == head.push((keys, action)));
            assert(before + head + seq![(keys, action)] == before + head.push((keys, action)));
        },
        _ => {
            assert(written_bindings(one) == Seq::<(Seq<KeyEvent>, ActionView)>::empty());
            assert(written_bindings(upto) == head);
            assert(before + head + Seq::<(Seq<KeyEvent>, ActionView)>::empty() == before + head);
        },
    }
}

/// The styles of one scene, by name: a list in which the first style of a
/// name counts.
#[derive(Debug, Clone)]
pub struct StyleMap {
    pub styles: Vec<(String, Style)>,
}

/// The style of the first entry of the list that has the given name.
pub open spec fn named_entry(entries: Seq<(Seq<char>, Style)>, name: Seq<char>) -> Option<Style>
    decreases entries.len(),
{
    if entries.len() == 0 {
        None
    } else if entries[0].0 == name {
        Some(entries[0].1)
    } else {
        named_entry(entries.subrange(1, entries.len() as int), name)
    }
}

/// In a list made of two, a name has the style that it has in the first,
/// and where the first does not hold it, the one that it has in the second.
pub proof fn lemma_named_entry_concat(
    first: Seq<(Seq<char>, Style)>,
    second: Seq<(Seq<char>, Style)>,
    name: Seq<char>,
)
    ensures
        named_entry(first + second, name) == match named_entry(first, name) {
            Some(style) => Some(style),
            None => named_entry(second, name),
        },
    decreases first.len(),
{
    if first.len() == 0 {
        assert(first + second == second);
    } else {
        let rest = first.subrange(1, first.len() as int);
        assert((first + second).subrange(1, (first + second).len() as int) == rest + second);
        assert((first + second)[0] == first[0]);
        lemma_named_entry_concat(rest, second, name);
    }
}

impl View for StyleMap {
    type V = Seq<(Seq<char>, Style)>;

    open spec fn view(&self) -> Seq<(Seq<char>, Style)> {
        self.styles@.map_values(|entry: (String, Style)| (entry.0@, entry.1))
    }
}

impl StyleMap {
    /// The style of a name, if it has one.
    pub open spec fn style_for(self, name: Seq<char>) -> Option<Style> {
        named_entry(self@, name)
    }

    /// A map without styles.
    pub fn new() -> (map: StyleMap)
        ensures
            map@ == Seq::<(Seq<char>, Style)>::empty(),
    {
        let map = StyleMap { styles: Vec::new() };
        assert(map@ == Seq::<(Seq<char>, Style)>::empty());
        map
    }

    /// The style of a name, if it has one.
    pub fn get(&self, name: &str) -> (style: Option<Style>)
        ensures
            style == self.style_for(name@),
    {
        let wanted = name.to_owned();
        let mut i: usize = 0;
        assert(self@.subrange(0, self@.len() as int) == self@);
        while i < self.styles.len()
            invariant
                i <= self.styles.len(),
                wanted@ == name@,
                self@.len() == self.styles.len(),
                named_entry(self@.subrange(i as int, self@.len() as int), name@) == named_entry(
                    self@,
                    name@,
                ),
            decreases self.styles.len() - i,
        {
            let ghost rest = self@.subrange(i as int, self@.len() as int);
            assert(rest[0] == (self.styles@[i as int].0@, self.styles@[i as int].1));
            assert(rest.subrange(1, rest.len() as int) == self@.subrange(
                i + 1,
                self@.len() as int,
            ));
            if self.styles[i].0 == wanted {
                return Some(self.styles[i].1);
            }
            i += 1;
        }
        None
    }

    /// Gives the name the style where it has none yet: the new entry stands
    /// behind all others.
    pub fn insert_default(&mut self, name: String, style: Style)
        ensures
            final(self)@ == old(self)@.push((name@, style)),
            forall|q: Seq<char>| #[trigger]
                final(self).style_for(q) == match old(self).style_for(q) {
                    Some(s) => Some(s),
                    None => if name@ == q {
                        Some(style)
                    } else {
                        None
                    },
                },
    {
        let ghost before = self@;
        let ghost added = (name@, style);
        self.styles.push((name, style));
        assert(self@ == before.push(added));
        assert forall|q: Seq<char>| #[trigger]
            self.style_for(q) == match named_entry(before, q) {
                Some(s) => Some(s),
                None => if added.0 == q {
                    Some(added.1)
                } else {
                    None
                },
            } by {
            lemma_named_entry_concat(before, seq![added], q);
            assert(before.push(added) == before + seq![added]);
            let one = seq![added];
            let none = one.subrange(1, one.len() as int);
            assert(none.len() == 0);
            assert(named_entry(none, q) is None);
            assert(one[0] == added);
        }
    }

    /// Gives the name the style, whatever it had before: the new entry
    /// stands before all others.
    pub fn insert(&mut self, name: String, style: Style)
        ensures
            final(self)@ == seq![(name@, style)] + old(self)@,
            forall|q: Seq<char>| #[trigger]
                final(self).style_for(q) == if name@ == q {
                    Some(style)
                } else {
                    old(self).style_for(q)
                },
    {
        let ghost before = self@;
        let ghost added = (name@, style);
        self.styles.insert(0, (name, style));
        assert(self@ == seq![added] + before);
        assert((seq![added] + before).subrange(1, before.len() as int + 1) == before);
    }
}

/// The styles of every scene. A scene has a map of styles or none.
#[derive(Debug, Clone)]
pub struct Styles {
    pub internals: Option<StyleMap>,
    pub data: Option<StyleMap>,
    pub session: Option<StyleMap>,
    pub about: Option<StyleMap>,
    pub home: Option<StyleMap>,
}

impl Default for Styles {
    fn default() -> (styles: Styles)
        ensures
            forall|scene: Scene| styles.of(scene) is None,
    {
        Styles { internals: None, data: None, session: None, about: None, home: None }
    }
}

impl Styles {
    /// The styles of a scene, if it has any.
    pub open spec fn of(self, scene: Scene) -> Option<StyleMap> {
        match scene {
            Scene::Internals => self.internals,
            Scene::Data => self.data,
            Scene::Session => self.session,
            Scene::About => self.about,
            Scene::Home => self.home,
        }
    }

    /// The styles of a scene, if it has any.
    pub fn get(&self, scene: &Scene) -> (map: Option<&StyleMap>)
        ensures
            match map {
                Some(m) => self.of(*scene) == Some(*m),
                None => self.of(*scene) is None,
            },
    {
        match scene {
            Scene::Internals => self.internals.as_ref(),
            Scene::Data => self.data.as_ref(),
            Scene::Session => self.session.as_ref(),
            Scene::About => self.about.as_ref(),
            Scene::Home => self.home.as_ref(),
        }
    }

    /// Gives the scene these styles, in place of those it had.
    pub fn set(&mut self, scene: Scene, map: StyleMap)
        ensures
            final(self).of(scene) == Some(map),
            forall|other: Scene| other != scene ==> final(self).of(other) == old(self).of(other),
    {
        match scene {
            Scene::Internals => self.internals = Some(map),
            Scene::Data => self.data = Some(map),
            Scene::Session => self.session = Some(map),
            Scene::About => self.about = Some(map),
            Scene::Home => self.home = Some(map),
        }
    }
}

/// The configuration of the application.
#[derive(Debug, Clone)]
pub struct Config {
    pub config: AppConfig,
    pub keybindings: KeyBindings,
    pub styles: Styles,
}

impl Default for Config {
    fn default() -> (config: Config)
        ensures
            forall|scene: Scene| config.keybindings.of(scene) is None,
            forall|scene: Scene| config.styles.of(scene) is None,
    {
        Config {
            config: AppConfig::default(),
            keybindings: KeyBindings::default(),
            styles: Styles::default(),
        }
    }
}

impl Config {
    /// The configuration made of what was read, completed by the defaults:
    /// the bindings of every scene are followed by the default bindings of
    /// that scene. There are no default styles.
    pub fn new(config: AppConfig, keybindings: KeyBindings, styles: Styles) -> (cfg: Config)
        ensures
            cfg.config == config,
            cfg.styles == styles,
            forall|scene: Scene| #[trigger] cfg.keybindings.merged_scene(keybindings, scene),
    {
        let mut keybindings = keybindings;
        keybindings.merge_defaults();
        Config { config, keybindings, styles }
    }
}

} // verus!
