//! The scenes of a story, by name. Scenes are only ever added or replaced,
//! never removed.

use vstd::prelude::*;
use vstd::string::*;

verus! {

/// A named unit of story logic. The host knows nothing of a scene but the
/// callback that displays it.
pub struct Scene<C> {
    /// Called with the narrative state when the story goes to this scene.
    pub display_callback: C,
}

impl<C> Scene<C> {
    /// A scene displayed by `display_callback`.
    pub fn new(display_callback: C) -> (scene: Scene<C>)
        ensures
            scene.display_callback == display_callback,
    {
        Scene { display_callback }
    }
}

/// Entry `i` of `entries` is the first that carries `name`.
pub open spec fn is_first<C>(entries: Seq<(String, Scene<C>)>, i: int, name: Seq<char>) -> bool {
    &&& 0 <= i < entries.len()
    &&& entries[i].0@ == name
    &&& forall|k: int| 0 <= k < i ==> (#[trigger] entries[k]).0@ != name
}

/// The registry of scenes: each name has at most one scene.
pub struct Scenes<C> {
    entries: Vec<(String, Scene<C>)>,
}

impl<C> View for Scenes<C> {
    type V = Map<Seq<char>, Scene<C>>;

    /// The scene registered under each name.
    closed spec fn view(&self) -> Map<Seq<char>, Scene<C>> {
        Map::new(
            |name: Seq<char>| exists|i: int| is_first(self.entries@, i, name),
            |name: Seq<char>| self.entries@[choose|i: int| is_first(self.entries@, i, name)].1,
        )
    }
}

/// The registry after the entries have been registered one after the other,
/// each under its name and in place of what that name had before.
pub open spec fn merged<C>(registry: Map<Seq<char>, Scene<C>>, entries: Seq<(String, C)>) -> Map<
    Seq<char>,
    Scene<C>,
>
    decreases entries.len(),
{
    if entries.len() == 0 {
        registry
    } else {
        merged(
            registry.insert(entries[0].0@, Scene { display_callback: entries[0].1 }),
            entries.drop_first(),
        )
    }
}

/// The text of the failure to find a scene. It names the scene.
pub open spec fn missing_scene_text(scene_name: Seq<char>) -> Seq<char> {
    "Failed to find scene: '"@ + scene_name + "'"@
}

/// The text of a failure inside a scene's display callback. It names the
/// scene and carries the text of the script's own error.
pub open spec fn scene_error_text(scene_name: Seq<char>, error: Seq<char>) -> Seq<char> {
    "[Error in Scene: '"@ + scene_name + "']: "@ + error
}

/// The failure to find a scene holds the exact name of the scene: cut out
/// from behind the opening words, the name stands there whole.
pub proof fn lemma_missing_scene_text_holds_the_name(scene_name: Seq<char>)
    ensures
        missing_scene_text(scene_name).subrange(
            "Failed to find scene: '"@.len() as int,
            ("Failed to find scene: '"@.len() + scene_name.len()) as int,
        ) == scene_name,
{
    let opening = "Failed to find scene: '"@;
    assert(missing_scene_text(scene_name).subrange(
        opening.len() as int,
        (opening.len() + scene_name.len()) as int,
    ) =~= scene_name);
}

/// Renders the failure to find the scene `scene_name`.
pub fn missing_scene_message(scene_name: &str) -> (text: String)
    ensures
        text@ == missing_scene_text(scene_name@),
{
    let mut text = String::from_str("Failed to find scene: '");
    text.append(scene_name);
    text.append("'");
    text
}

/// Renders the failure `error` of the display callback of `scene_name`.
pub fn scene_error_message(scene_name: &str, error: &str) -> (text: String)
    ensures
        text@ == scene_error_text(scene_name@, error@),
{
    let mut text = String::from_str("[Error in Scene: '");
    text.append(scene_name);
    text.append("']: ");
    text.append(error);
    text
}

impl<C> Scenes<C> {
    /// A registry without scenes.
    pub fn new() -> (scenes: Scenes<C>)
        ensures
            scenes@ == Map::<Seq<char>, Scene<C>>::empty(),
    {
        let scenes = Scenes { entries: Vec::new() };
        assert(scenes@ =~= Map::<Seq<char>, Scene<C>>::empty());
        scenes
    }

    proof fn lemma_first_is_unique(entries: Seq<(String, Scene<C>)>, i: int, j: int, name: Seq<char>)
        requires
            is_first(entries, i, name),
            is_first(entries, j, name),
        ensures
            i == j,
    {
        if i < j {
            assert(entries[i].0@ != name);
        }
        if j < i {
            assert(entries[j].0@ != name);
        }
    }

    fn position(&self, name: &String) -> (found: Option<usize>)
        ensures
            match found {
                Some(i) => is_first(self.entries@, i as int, name@),
                None => forall|i: int|
                    0 <= i < self.entries@.len() ==> (#[trigger] self.entries@[i]).0@ != name@,
            },
    {
        let mut i: usize = 0;
        while i < self.entries.len()
            invariant
                0 <= i <= self.entries.len(),
                forall|k: int| 0 <= k < i ==> (#[trigger] self.entries@[k]).0@ != name@,
            decreases self.entries.len() - i,
        {
            if self.entries[i].0 == *name {
                return Some(i);
            }
            i = i + 1;
        }
        None
    }

    /// Whether a scene is registered under `name`.
    pub fn contains(&self, name: &str) -> (found: bool)
        ensures
            found == self@.contains_key(name@),
    {
        let wanted = name.to_owned();
        self.position(&wanted).is_some()
    }

    /// The scene registered under `name`, if there is one.
    pub fn get(&self, name: &str) -> (found: Option<&Scene<C>>)
        ensures
            found is Some <==> self@.contains_key(name@),
            found is Some ==> *found->0 == self@[name@],
    {
        let wanted = name.to_owned();
        match self.position(&wanted) {
            Some(i) => {
                proof {
                    let k = choose|k: int| is_first(self.entries@, k, name@);
                    Self::lemma_first_is_unique(self.entries@, k, i as int, name@);
                }
                Some(&self.entries[i].1)
            },
            None => None,
        }
    }

    /// The scene to go to under `name`, or the failure that names the scene
    /// that is missing.
    pub fn resolve(&self, name: &str) -> (found: Result<&Scene<C>, String>)
        ensures
            found is Ok <==> self@.contains_key(name@),
            found is Ok ==> *found->Ok_0 == self@[name@],
            found is Err ==> found->Err_0@ == missing_scene_text(name@),
    {
        match self.get(name) {
            Some(scene) => Ok(scene),
            None => Err(missing_scene_message(name)),
        }
    }

    /// Registers `scene` under `name`, in place of the scene that the name
    /// had before if it had one. Every other name keeps its scene.
    pub fn insert(&mut self, name: String, scene: Scene<C>)
        ensures
            final(self)@ == old(self)@.insert(name@, scene),
    {
        let ghost before = self.entries@;
        let ghost at: int;
        match self.position(&name) {
            Some(i) => {
                self.entries[i] = (name, scene);
                proof {
                    at = i as int;
                }
            },
            None => {
                self.entries.push((name, scene));
                proof {
                    at = before.len() as int;
                }
            },
        }
        proof {
            let after = self.entries@;
            assert(is_first(after, at, name@));
            assert(after[at].1 == scene);
            assert forall|k: int, n: Seq<char>| n != name@ implies (is_first(after, k, n)
                <==> is_first(before, k, n)) by {
                if is_first(after, k, n) {
                    assert(k != at);
                    assert(after[k] == before[k]);
                    assert forall|m: int| 0 <= m < k implies (#[trigger] before[m]).0@ != n by {
                        assert(after[m].0@ != n);
                    }
                }
                if is_first(before, k, n) {
                    assert(k != at);
                    assert(after[k] == before[k]);
                    assert forall|m: int| 0 <= m < k implies (#[trigger] after[m]).0@ != n by {
                        assert(before[m].0@ != n);
                    }
                }
            }
            let target = old(self)@.insert(name@, scene);
            assert forall|n: Seq<char>| self@.contains_key(n) <==> target.contains_key(n) by {
                if n != name@ {
                    if self@.contains_key(n) {
                        let k = choose|k: int| is_first(after, k, n);
                        assert(is_first(before, k, n));
                    }
                    if old(self)@.contains_key(n) {
                        let k = choose|k: int| is_first(before, k, n);
                        assert(is_first(after, k, n));
                    }
                }
            }
            assert forall|n: Seq<char>| self@.contains_key(n) implies self@[n] == target[n] by {
                let k = choose|k: int| is_first(after, k, n);
                if n == name@ {
                    Self::lemma_first_is_unique(after, k, at, n);
                } else {
                    assert(is_first(before, k, n));
                    let kb = choose|kb: int| is_first(before, kb, n);
                    Self::lemma_first_is_unique(before, k, kb, n);
                    assert(k != at);
                    assert(after[k] == before[k]);
                }
            }
            assert(self@ =~= target);
        }
    }

    /// Registers the entries one after the other, so that of two entries
    /// with one name the later one stays. Names that no entry carries keep
    /// their scenes.
    pub fn add_scenes(&mut self, new_scenes: Vec<(String, C)>)
        ensures
            final(self)@ == merged(old(self)@, new_scenes@),
    {
        let ghost given = new_scenes@;
        let mut pending = crate::util::reversed(new_scenes);
        assert(given.skip(0) =~= given);
        while pending.len() > 0
            invariant
                given == new_scenes@,
                pending@.len() <= given.len(),
                forall|j: int|
                    0 <= j < pending@.len() ==> pending@[j] == given[given.len() - 1 - j],
                merged(self@, given.skip(given.len() - pending@.len())) == merged(
                    old(self)@,
                    given,
                ),
            decreases pending@.len(),
        {
            let ghost at = given.len() - pending@.len();
            let (name, display_callback) = pending.pop().unwrap();
            proof {
                assert(given.skip(at)[0] == given[at]);
                assert(given.skip(at).drop_first() =~= given.skip(at + 1));
            }
            self.insert(name, Scene::new(display_callback));
        }
        assert(given.skip(given.len() as int).len() == 0);
    }
}

/// Registering scenes leaves alone every name that none of the entries
/// carries: it is registered afterwards exactly if it was before, and with
/// the same scene.
pub proof fn lemma_other_names_keep_their_scene<C>(
    registry: Map<Seq<char>, Scene<C>>,
    entries: Seq<(String, C)>,
    name: Seq<char>,
)
    requires
        forall|i: int| 0 <= i < entries.len() ==> (#[trigger] entries[i]).0@ != name,
    ensures
        merged(registry, entries).contains_key(name) == registry.contains_key(name),
        registry.contains_key(name) ==> merged(registry, entries)[name] == registry[name],
    decreases entries.len(),
{
    if entries.len() > 0 {
        let next = registry.insert(entries[0].0@, Scene { display_callback: entries[0].1 });
        let rest = entries.drop_first();
        assert(entries[0].0@ != name);
        assert forall|i: int| 0 <= i < rest.len() implies (#[trigger] rest[i]).0@ != name by {
            assert(rest[i] == entries[i + 1]);
        }
        lemma_other_names_keep_their_scene(next, rest, name);
    }
}

/// Scenes are never removed: a name that is registered stays registered
/// whatever is registered after it.
pub proof fn lemma_registered_names_stay<C>(
    registry: Map<Seq<char>, Scene<C>>,
    entries: Seq<(String, C)>,
    name: Seq<char>,
)
    requires
        registry.contains_key(name),
    ensures
        merged(registry, entries).contains_key(name),
    decreases entries.len(),
{
    if entries.len() > 0 {
        let next = registry.insert(entries[0].0@, Scene { display_callback: entries[0].1 });
        lemma_registered_names_stay(next, entries.drop_first(), name);
    }
}

/// Last write wins: the entry that is the last to carry its name decides
/// the scene of that name, whatever the registry and the earlier entries
/// had for it.
pub proof fn lemma_last_entry_wins<C>(
    registry: Map<Seq<char>, Scene<C>>,
    entries: Seq<(String, C)>,
    i: int,
)
    requires
        0 <= i < entries.len(),
        forall|j: int| i < j < entries.len() ==> (#[trigger] entries[j]).0@ != entries[i].0@,
    ensures
        merged(registry, entries).contains_key(entries[i].0@),
        merged(registry, entries)[entries[i].0@] == (Scene { display_callback: entries[i].1 }),
    decreases entries.len(),
{
    let next = registry.insert(entries[0].0@, Scene { display_callback: entries[0].1 });
    let rest = entries.drop_first();
    if i == 0 {
        assert forall|j: int| 0 <= j < rest.len() implies (#[trigger] rest[j]).0@
            != entries[0].0@ by {
            assert(rest[j] == entries[j + 1]);
        }
        lemma_other_names_keep_their_scene(next, rest, entries[0].0@);
    } else {
        assert(rest[i - 1] == entries[i]);
        assert forall|j: int| i - 1 < j < rest.len() implies (#[trigger] rest[j]).0@ != rest[i
            - 1].0@ by {
            assert(rest[j] == entries[j + 1]);
        }
        lemma_last_entry_wins(next, rest, i - 1);
    }
}

/// Registering a name a second time keeps only the second callback, and
/// the scenes that were registered before under other names remain.
pub proof fn lemma_second_registration_replaces_first<C>(
    registry: Map<Seq<char>, Scene<C>>,
    name: String,
    first: C,
    second: C,
    other: Seq<char>,
)
    requires
        other != name@,
    ensures
        merged(merged(registry, seq![(name, first)]), seq![(name, second)])[name@] == (Scene {
            display_callback: second,
        }),
        merged(merged(registry, seq![(name, first)]), seq![(name, second)]).contains_key(name@),
        registry.contains_key(other) ==> merged(
            merged(registry, seq![(name, first)]),
            seq![(name, second)],
        ).contains_key(other) && merged(
            merged(registry, seq![(name, first)]),
            seq![(name, second)],
        )[other] == registry[other],
{
    let once = merged(registry, seq![(name, first)]);
    lemma_last_entry_wins(once, seq![(name, second)], 0);
    lemma_other_names_keep_their_scene(registry, seq![(name, first)], other);
    lemma_other_names_keep_their_scene(once, seq![(name, second)], other);
}

} // verus!
