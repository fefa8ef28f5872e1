//! The canonical registry of every registered physical hotkey.
//!
//! A physical combo is owned by at most one binding, whichever operating system
//! manager the binding is routed to.

use std::collections::HashMap;

use vstd::prelude::*;

use crate::keyed_map::{KeyedMap, MapKey};
use crate::text::same_text;

verus! {

broadcast use vstd::std_specs::hash::group_hash_axioms;

/// A physical key combo: the modifier bits and the key, if any.
#[derive(Debug, Clone, Copy, PartialEq, Eq, Structural)]
pub struct Hotkey {
    pub modifiers: u32,
    pub key: Option<u32>,
}

impl View for Hotkey {
    type V = Hotkey;

    open spec fn view(&self) -> Hotkey {
        *self
    }
}

impl MapKey for Hotkey {
    fn same_key(&self, other: &Self) -> (r: bool) {
        let same_key: bool = match (self.key, other.key) {
            (Some(a), Some(b)) => a == b,
            (None, None) => true,
            _ => false,
        };
        self.modifiers == other.modifiers && same_key
    }
}

/// Which operating system manager a binding is registered with.
#[derive(Debug, Clone, Copy, PartialEq, Eq, Structural)]
pub enum ManagerCategory {
    /// Consuming event tap; the combo is blocked from other applications.
    Blocking,
    /// Non-blocking listener; the combo still reaches other applications.
    Passive,
}

/// A committed registration.
#[derive(Debug, Clone, Copy)]
pub struct Registration {
    pub hotkey: Hotkey,
    pub id: u32,
    pub category: ManagerCategory,
}

/// What an operating system id dispatches to.
#[derive(Debug)]
pub struct DispatchTarget {
    pub binding_id: String,
    pub hotkey_string: String,
}

/// The two texts of a [`DispatchTarget`].
pub struct DispatchView {
    pub binding_id: Seq<char>,
    pub hotkey_string: Seq<char>,
}

impl View for DispatchTarget {
    type V = DispatchView;

    open spec fn view(&self) -> DispatchView {
        DispatchView { binding_id: self.binding_id@, hotkey_string: self.hotkey_string@ }
    }
}

/// Every registered hotkey, by combo, by binding and by operating system id.
/// The ids are allocated per manager, so each category has its own map.
pub struct HotkeyRegistry {
    by_hotkey: KeyedMap<Hotkey, String>,
    by_binding: KeyedMap<String, Registration>,
    blocking_ids: HashMap<u32, DispatchTarget>,
    passive_ids: HashMap<u32, DispatchTarget>,
}

/// The contents of a [`HotkeyRegistry`].
#[verifier::ext_equal]
pub struct RegistryView {
    pub by_hotkey: Map<Hotkey, Seq<char>>,
    pub by_binding: Map<Seq<char>, Registration>,
    pub blocking_ids: Map<u32, DispatchView>,
    pub passive_ids: Map<u32, DispatchView>,
}

impl RegistryView {
    /// The dispatch map of a category.
    pub open spec fn ids(self, category: ManagerCategory) -> Map<u32, DispatchView> {
        match category {
            ManagerCategory::Blocking => self.blocking_ids,
            ManagerCategory::Passive => self.passive_ids,
        }
    }
}

impl View for HotkeyRegistry {
    type V = RegistryView;

    closed spec fn view(&self) -> RegistryView {
        RegistryView {
            by_hotkey: self.by_hotkey@.map_values(|s: String| s@),
            by_binding: self.by_binding@,
            blocking_ids: self.blocking_ids@.map_values(|t: DispatchTarget| t@),
            passive_ids: self.passive_ids@.map_values(|t: DispatchTarget| t@),
        }
    }
}

/// The three maps agree: each binding owns its combo and its id, and each combo
/// and each id belongs to a registered binding.
pub open spec fn coherent(r: RegistryView) -> bool {
    &&& forall|b: Seq<char>| #[trigger]
        r.by_binding.dom().contains(b) ==> {
            let reg = r.by_binding[b];
            &&& r.by_hotkey.dom().contains(reg.hotkey)
            &&& r.by_hotkey[reg.hotkey] == b
            &&& r.ids(reg.category).dom().contains(reg.id)
            &&& r.ids(reg.category)[reg.id].binding_id == b
        }
    &&& forall|h: Hotkey| #[trigger]
        r.by_hotkey.dom().contains(h) ==> r.by_binding.dom().contains(r.by_hotkey[h])
            && r.by_binding[r.by_hotkey[h]].hotkey == h
    &&& forall|id: u32| #[trigger]
        r.blocking_ids.dom().contains(id) ==> owns_id(r, ManagerCategory::Blocking, id)
    &&& forall|id: u32| #[trigger]
        r.passive_ids.dom().contains(id) ==> owns_id(r, ManagerCategory::Passive, id)
}

/// The binding that `id` dispatches to is registered under that id.
pub open spec fn owns_id(r: RegistryView, category: ManagerCategory, id: u32) -> bool {
    let binding = r.ids(category)[id].binding_id;
    &&& r.by_binding.dom().contains(binding)
    &&& r.by_binding[binding].category == category
    &&& r.by_binding[binding].id == id
}

/// The combo is owned by another binding than `binding_id`.
pub open spec fn collides(r: RegistryView, hotkey: Hotkey, binding_id: Seq<char>) -> bool {
    r.by_hotkey.dom().contains(hotkey) && r.by_hotkey[hotkey] != binding_id
}

/// The text that rejects a combo owned by `owner`.
pub open spec fn collision_text(owner: Seq<char>) -> Seq<char> {
    "Hotkey combination already bound to '"@ + owner + "'"@
}

/// The registry after a registration was committed.
pub open spec fn after_commit(
    r: RegistryView,
    binding_id: Seq<char>,
    hotkey: Hotkey,
    hotkey_string: Seq<char>,
    id: u32,
    category: ManagerCategory,
) -> RegistryView {
    let target = DispatchView { binding_id, hotkey_string };
    RegistryView {
        by_hotkey: r.by_hotkey.insert(hotkey, binding_id),
        by_binding: r.by_binding.insert(binding_id, Registration { hotkey, id, category }),
        blocking_ids: if category == ManagerCategory::Blocking {
            r.blocking_ids.insert(id, target)
        } else {
            r.blocking_ids
        },
        passive_ids: if category == ManagerCategory::Passive {
            r.passive_ids.insert(id, target)
        } else {
            r.passive_ids
        },
    }
}

/// The registry after `binding_id` was removed.
pub open spec fn after_remove(r: RegistryView, binding_id: Seq<char>) -> RegistryView {
    if r.by_binding.dom().contains(binding_id) {
        let reg = r.by_binding[binding_id];
        RegistryView {
            by_hotkey: r.by_hotkey.remove(reg.hotkey),
            by_binding: r.by_binding.remove(binding_id),
            blocking_ids: if reg.category == ManagerCategory::Blocking {
                r.blocking_ids.remove(reg.id)
            } else {
                r.blocking_ids
            },
            passive_ids: if reg.category == ManagerCategory::Passive {
                r.passive_ids.remove(reg.id)
            } else {
                r.passive_ids
            },
        }
    } else {
        r
    }
}

/// Registering the very combo that the binding has already.
pub open spec fn is_same_registration(
    r: RegistryView,
    binding_id: Seq<char>,
    hotkey: Hotkey,
) -> bool {
    r.by_binding.dom().contains(binding_id) && r.by_binding[binding_id].hotkey == hotkey
}

/// An empty registry is coherent.
pub proof fn an_empty_registry_is_coherent()
    ensures
        coherent(
            RegistryView {
                by_hotkey: Map::empty(),
                by_binding: Map::empty(),
                blocking_ids: Map::empty(),
                passive_ids: Map::empty(),
            },
        ),
{
}

/// Removing a binding keeps the registry coherent, frees its combo for every
/// other binding, and takes its id off the dispatch map.
pub proof fn removal_keeps_coherence_and_frees_the_combo(r: RegistryView, binding_id: Seq<char>)
    requires
        coherent(r),
    ensures
        coherent(after_remove(r, binding_id)),
        !after_remove(r, binding_id).by_binding.dom().contains(binding_id),
        r.by_binding.dom().contains(binding_id) ==> {
            let reg = r.by_binding[binding_id];
            &&& forall|other: Seq<char>| !collides(after_remove(r, binding_id), reg.hotkey, other)
            &&& !after_remove(r, binding_id).ids(reg.category).dom().contains(reg.id)
        },
        forall|h: Hotkey| #[trigger]
            after_remove(r, binding_id).by_hotkey.dom().contains(h)
                ==> after_remove(r, binding_id).by_hotkey[h] != binding_id,
{
    let after = after_remove(r, binding_id);
    if r.by_binding.dom().contains(binding_id) {
        let gone = r.by_binding[binding_id];
        assert forall|b: Seq<char>| #[trigger] after.by_binding.dom().contains(b) implies {
            let reg = after.by_binding[b];
            &&& after.by_hotkey.dom().contains(reg.hotkey)
            &&& after.by_hotkey[reg.hotkey] == b
            &&& after.ids(reg.category).dom().contains(reg.id)
            &&& after.ids(reg.category)[reg.id].binding_id == b
        } by {
            assert(r.by_binding.dom().contains(b));
            let reg = r.by_binding[b];
            assert(r.by_hotkey[reg.hotkey] == b);
            assert(r.by_hotkey[gone.hotkey] == binding_id);
            assert(r.ids(reg.category)[reg.id].binding_id == b);
            assert(r.ids(gone.category)[gone.id].binding_id == binding_id);
        }
        assert forall|h: Hotkey| #[trigger] after.by_hotkey.dom().contains(h) implies
            after.by_binding.dom().contains(after.by_hotkey[h])
            && after.by_binding[after.by_hotkey[h]].hotkey == h by {
            assert(r.by_hotkey.dom().contains(h));
        }
        assert forall|id: u32| #[trigger] after.blocking_ids.dom().contains(id) implies owns_id(
            after,
            ManagerCategory::Blocking,
            id,
        ) by {
            assert(r.blocking_ids.dom().contains(id));
            assert(owns_id(r, ManagerCategory::Blocking, id));
        }
        assert forall|id: u32| #[trigger] after.passive_ids.dom().contains(id) implies owns_id(
            after,
            ManagerCategory::Passive,
            id,
        ) by {
            assert(r.passive_ids.dom().contains(id));
            assert(owns_id(r, ManagerCategory::Passive, id));
        }
    }
    assert forall|h: Hotkey| #[trigger] after.by_hotkey.dom().contains(h) implies after.by_hotkey[h]
        != binding_id by {
        assert(r.by_hotkey.dom().contains(h));
        if r.by_hotkey[h] == binding_id {
            assert(r.by_binding.dom().contains(binding_id));
        }
    }
}

/// Committing a registration keeps the registry coherent where the binding has
/// no other registration, the combo is free and the id is new to its manager.
pub proof fn commit_keeps_coherence(
    r: RegistryView,
    binding_id: Seq<char>,
    hotkey: Hotkey,
    hotkey_string: Seq<char>,
    id: u32,
    category: ManagerCategory,
)
    requires
        coherent(r),
        !r.by_binding.dom().contains(binding_id),
        !r.by_hotkey.dom().contains(hotkey),
        !r.ids(category).dom().contains(id),
    ensures
        coherent(after_commit(r, binding_id, hotkey, hotkey_string, id, category)),
{
    let after = after_commit(r, binding_id, hotkey, hotkey_string, id, category);
    assert forall|b: Seq<char>| #[trigger] after.by_binding.dom().contains(b) implies {
        let reg = after.by_binding[b];
        &&& after.by_hotkey.dom().contains(reg.hotkey)
        &&& after.by_hotkey[reg.hotkey] == b
        &&& after.ids(reg.category).dom().contains(reg.id)
        &&& after.ids(reg.category)[reg.id].binding_id == b
    } by {
        if b != binding_id {
            assert(r.by_binding.dom().contains(b));
        }
    }
    assert forall|h: Hotkey| #[trigger] after.by_hotkey.dom().contains(h) implies
        after.by_binding.dom().contains(after.by_hotkey[h])
        && after.by_binding[after.by_hotkey[h]].hotkey == h by {
        if h != hotkey {
            assert(r.by_hotkey.dom().contains(h));
        }
    }
    assert forall|i: u32| #[trigger] after.blocking_ids.dom().contains(i) implies owns_id(
        after,
        ManagerCategory::Blocking,
        i,
    ) by {
        if r.blocking_ids.dom().contains(i) {
            assert(owns_id(r, ManagerCategory::Blocking, i));
        }
    }
    assert forall|i: u32| #[trigger] after.passive_ids.dom().contains(i) implies owns_id(
        after,
        ManagerCategory::Passive,
        i,
    ) by {
        if r.passive_ids.dom().contains(i) {
            assert(owns_id(r, ManagerCategory::Passive, i));
        }
    }
}

/// A successful registration, fresh or in place of an earlier combo of the same
/// binding, keeps the registry coherent, dispatches the new id to the binding,
/// and frees the earlier combo.
pub proof fn registration_keeps_coherence(
    r: RegistryView,
    binding_id: Seq<char>,
    hotkey: Hotkey,
    hotkey_string: Seq<char>,
    id: u32,
    category: ManagerCategory,
)
    requires
        coherent(r),
        !is_same_registration(r, binding_id, hotkey),
        !collides(r, hotkey, binding_id),
        !r.ids(category).dom().contains(id),
    ensures
        ({
            let after = after_commit(
                after_remove(r, binding_id),
                binding_id,
                hotkey,
                hotkey_string,
                id,
                category,
            );
            &&& coherent(after)
            &&& after.ids(category)[id] == (DispatchView { binding_id, hotkey_string })
            &&& after.by_hotkey[hotkey] == binding_id
            &&& r.by_binding.dom().contains(binding_id) ==> !after.by_hotkey.dom().contains(
                r.by_binding[binding_id].hotkey,
            )
        }),
{
    removal_keeps_coherence_and_frees_the_combo(r, binding_id);
    let between = after_remove(r, binding_id);
    if between.by_hotkey.dom().contains(hotkey) {
        assert(r.by_hotkey.dom().contains(hotkey));
        assert(between.by_hotkey[hotkey] != binding_id);
    }
    commit_keeps_coherence(between, binding_id, hotkey, hotkey_string, id, category);
}

/// No two bindings of a coherent registry own the same combo.
pub proof fn a_combo_has_one_owner(r: RegistryView, a: Seq<char>, b: Seq<char>)
    requires
        coherent(r),
        r.by_binding.dom().contains(a),
        r.by_binding.dom().contains(b),
        r.by_binding[a].hotkey == r.by_binding[b].hotkey,
    ensures
        a == b,
{
}

impl HotkeyRegistry {
    /// A registry without registrations.
    pub fn new() -> (r: Self)
        ensures
            r@ == (RegistryView {
                by_hotkey: Map::empty(),
                by_binding: Map::empty(),
                blocking_ids: Map::empty(),
                passive_ids: Map::empty(),
            }),
            coherent(r@),
    {
        let r = HotkeyRegistry {
            by_hotkey: KeyedMap::new(),
            by_binding: KeyedMap::new(),
            blocking_ids: HashMap::new(),
            passive_ids: HashMap::new(),
        };
        proof {
            assert(r@ =~= (RegistryView {
                by_hotkey: Map::empty(),
                by_binding: Map::empty(),
                blocking_ids: Map::empty(),
                passive_ids: Map::empty(),
            }));
        }
        r
    }

    /// The binding that owns a combo.
    pub fn owner_of(&self, hotkey: &Hotkey) -> (r: Option<&str>)
        ensures
            r.is_some() == self@.by_hotkey.dom().contains(*hotkey),
            r matches Some(owner) ==> owner@ == self@.by_hotkey[*hotkey],
    {
        match self.by_hotkey.get(hotkey) {
            Some(owner) => Some(owner.as_str()),
            None => None,
        }
    }

    /// Rejects a combo that another binding owns.
    pub fn check_collision(&self, hotkey: &Hotkey, binding_id: &str) -> (r: Result<(), String>)
        ensures
            r is Err == collides(self@, *hotkey, binding_id@),
            r matches Err(text) ==> text@ == collision_text(self@.by_hotkey[*hotkey]),
            r is Err <==> self@.by_hotkey.dom().contains(*hotkey) && self@.by_hotkey[*hotkey]
                != binding_id@,
            r matches Err(text) ==> text@ == "Hotkey combination already bound to '"@
                + self@.by_hotkey[*hotkey] + "'"@,
    {
        match self.owner_of(hotkey) {
            Some(existing) => {
                if same_text(existing, binding_id) {
                    Ok(())
                } else {
                    let mut text: String = "Hotkey combination already bound to '".to_owned();
                    text.append(existing);
                    text.append("'");
                    Err(text)
                }
            },
            None => Ok(()),
        }
    }

    /// Records a registration that the operating system accepted.
    pub fn commit(
        &mut self,
        binding_id: &str,
        hotkey: Hotkey,
        hotkey_string: &str,
        id: u32,
        category: ManagerCategory,
    )
        ensures
            final(self)@ == after_commit(
                old(self)@,
                binding_id@,
                hotkey,
                hotkey_string@,
                id,
                category,
            ),
            final(self)@.by_hotkey == old(self)@.by_hotkey.insert(hotkey, binding_id@),
            final(self)@.by_binding == old(self)@.by_binding.insert(
                binding_id@,
                Registration { hotkey, id, category },
            ),
            final(self)@.ids(category) == old(self)@.ids(category).insert(
                id,
                DispatchView { binding_id: binding_id@, hotkey_string: hotkey_string@ },
            ),
            forall|other: ManagerCategory|
                other != category ==> #[trigger] final(self)@.ids(other) == old(self)@.ids(other),
    {
        self.by_hotkey.insert(hotkey, binding_id.to_owned());
        self.by_binding.insert(binding_id.to_owned(), Registration { hotkey, id, category });
        let target = DispatchTarget {
            binding_id: binding_id.to_owned(),
            hotkey_string: hotkey_string.to_owned(),
        };
        match category {
            ManagerCategory::Blocking => {
                self.blocking_ids.insert(id, target);
            },
            ManagerCategory::Passive => {
                self.passive_ids.insert(id, target);
            },
        }
        proof {
            assert(self@ =~= after_commit(
                old(self)@,
                binding_id@,
                hotkey,
                hotkey_string@,
                id,
                category,
            ));
        }
    }

    /// Drops a binding. Returns the id and the manager that it was registered
    /// with.
    pub fn remove(&mut self, binding_id: &str) -> (r: Option<(u32, ManagerCategory)>)
        ensures
            final(self)@ == after_remove(old(self)@, binding_id@),
            r == handle_of(old(self)@, binding_id@),
            final(self)@.by_binding == old(self)@.by_binding.remove(binding_id@),
            r is Some <==> old(self)@.by_binding.dom().contains(binding_id@),
            r is None ==> final(self)@ == old(self)@,
            r matches Some((id, category)) ==> {
                let gone = old(self)@.by_binding[binding_id@];
                &&& id == gone.id
                &&& category == gone.category
                &&& final(self)@.by_hotkey == old(self)@.by_hotkey.remove(gone.hotkey)
                &&& final(self)@.ids(category) == old(self)@.ids(category).remove(id)
                &&& forall|other: ManagerCategory|
                    other != category ==> #[trigger] final(self)@.ids(other) == old(self)@.ids(
                        other,
                    )
            },
    {
        let reg: Registration = match self.by_binding.remove(&binding_id.to_owned()) {
            Some(reg) => reg,
            None => {
                proof {
                    assert(self@ =~= after_remove(old(self)@, binding_id@));
                }
                return None;
            },
        };
        self.by_hotkey.remove(&reg.hotkey);
        match reg.category {
            ManagerCategory::Blocking => {
                self.blocking_ids.remove(&reg.id);
            },
            ManagerCategory::Passive => {
                self.passive_ids.remove(&reg.id);
            },
        }
        proof {
            assert(self@ =~= after_remove(old(self)@, binding_id@));
        }
        Some((reg.id, reg.category))
    }

    /// What an operating system event `id` of a manager belongs to.
    pub fn dispatch_target(&self, category: ManagerCategory, id: &u32) -> (r: Option<
        &DispatchTarget,
    >)
        ensures
            r.is_some() == self@.ids(category).dom().contains(*id),
            r matches Some(target) ==> target@ == self@.ids(category)[*id],
    {
        match category {
            ManagerCategory::Blocking => self.blocking_ids.get(id),
            ManagerCategory::Passive => self.passive_ids.get(id),
        }
    }

    /// The id and the manager of a binding.
    pub fn os_handle(&self, binding_id: &str) -> (r: Option<(u32, ManagerCategory)>)
        ensures
            r == handle_of(self@, binding_id@),
            r is Some <==> self@.by_binding.dom().contains(binding_id@),
            r matches Some((id, category)) ==> id == self@.by_binding[binding_id@].id && category
                == self@.by_binding[binding_id@].category,
    {
        match self.by_binding.get(&binding_id.to_owned()) {
            Some(reg) => Some((reg.id, reg.category)),
            None => None,
        }
    }

    /// Registers a binding, or moves it to another combo.
    ///
    /// 1. Registering the combo that the binding has already changes nothing.
    /// 2. A combo of another binding is rejected before anything is touched.
    /// 3. The new combo is registered with the operating system first, while an
    ///    earlier combo of this binding stays live. `os_unregister` can be called
    ///    only once the operating system has taken the new combo, so a refusal
    ///    leaves the earlier one alone.
    /// 4. Only then is the earlier combo dropped and the new one recorded. What
    ///    comes of releasing the earlier one does not matter: its id is off the
    ///    dispatch map.
    pub fn register_transactional<
        F: FnOnce(Hotkey) -> Result<u32, String>,
        G: FnOnce(u32, ManagerCategory) -> Result<(), String>,
    >(
        &mut self,
        binding_id: &str,
        hotkey: Hotkey,
        hotkey_string: &str,
        category: ManagerCategory,
        os_register: F,
        os_unregister: G,
    ) -> (r: Result<(), String>)
        requires
            touches_os(old(self)@, binding_id@, hotkey) ==> os_register.requires((hotkey,)),
            touches_os(old(self)@, binding_id@, hotkey) ==> (handle_of(old(self)@, binding_id@) matches Some(
                handle,
            ) ==> forall|id: u32| #[trigger]
                os_register.ensures((hotkey,), Ok(id)) ==> os_unregister.requires(
                    (handle.0, handle.1),
                )),
        ensures
            is_same_registration(old(self)@, binding_id@, hotkey) ==> r is Ok && final(self)@
                == old(self)@,
            !is_same_registration(old(self)@, binding_id@, hotkey) && collides(
                old(self)@,
                hotkey,
                binding_id@,
            ) ==> {
                &&& r is Err
                &&& r->Err_0@ == collision_text(old(self)@.by_hotkey[hotkey])
                &&& final(self)@ == old(self)@
            },
            touches_os(old(self)@, binding_id@, hotkey) && r is Ok ==> (handle_of(
                old(self)@,
                binding_id@,
            ) matches Some(handle) ==> exists|released: Result<(), String>| #[trigger]
                os_unregister.ensures((handle.0, handle.1), released)),
            touches_os(old(self)@, binding_id@, hotkey) ==> match r {
                Ok(_) => exists|id: u32|
                    {
                        &&& os_register.ensures((hotkey,), Ok(id))
                        &&& final(self)@ == #[trigger] after_commit(
                            after_remove(old(self)@, binding_id@),
                            binding_id@,
                            hotkey,
                            hotkey_string@,
                            id,
                            category,
                        )
                    },
                Err(error) => {
                    &&& os_register.ensures((hotkey,), Err(error))
                    &&& final(self)@ == old(self)@
                },
            },
            r is Err ==> final(self)@ == old(self)@,
            r is Ok ==> {
                let had = old(self)@.by_binding;
                let has = final(self)@.by_binding;
                &&& has.dom().contains(binding_id@)
                &&& has[binding_id@].hotkey == hotkey
                &&& forall|other: Seq<char>|
                    other != binding_id@ ==> has.dom().contains(other) == had.dom().contains(other)
                        && #[trigger] has[other] == had[other]
                &&& if had.dom().contains(binding_id@) && had[binding_id@].hotkey == hotkey {
                    final(self)@ == old(self)@
                } else {
                    &&& has[binding_id@].category == category
                    &&& os_register.ensures((hotkey,), Ok(has[binding_id@].id))
                    &&& final(self)@.by_hotkey.dom().contains(hotkey)
                    &&& final(self)@.by_hotkey[hotkey] == binding_id@
                    &&& final(self)@.ids(category).dom().contains(has[binding_id@].id)
                    &&& final(self)@.ids(category)[has[binding_id@].id] == (DispatchView {
                        binding_id: binding_id@,
                        hotkey_string: hotkey_string@,
                    })
                }
            },
            old(self)@.by_hotkey.dom().contains(hotkey) && old(self)@.by_hotkey[hotkey]
                != binding_id@ && !(old(self)@.by_binding.dom().contains(binding_id@) && old(
                self,
            )@.by_binding[binding_id@].hotkey == hotkey) ==> {
                &&& r is Err
                &&& r->Err_0@ == "Hotkey combination already bound to '"@ + old(
                    self,
                )@.by_hotkey[hotkey] + "'"@
            },
    {
        match self.by_binding.get(&binding_id.to_owned()) {
            Some(reg) => {
                if reg.hotkey.same_key(&hotkey) {
                    return Ok(());
                }
            },
            None => {},
        }
        match self.check_collision(&hotkey, binding_id) {
            Ok(_) => {},
            Err(text) => {
                return Err(text);
            },
        }
        let new_id: u32 = match os_register(hotkey) {
            Ok(id) => id,
            Err(error) => {
                return Err(error);
            },
        };
        match self.remove(binding_id) {
            Some((old_id, old_category)) => {
                let _ = os_unregister(old_id, old_category);
            },
            None => {},
        }
        self.commit(binding_id, hotkey, hotkey_string, new_id, category);
        Ok(())
    }

    /// Unregisters a binding. The operating system goes first; the registry
    /// forgets the binding only once that succeeded.
    pub fn unregister_transactional<G: FnOnce(u32, ManagerCategory) -> Result<(), String>>(
        &mut self,
        binding_id: &str,
        os_unregister: G,
    ) -> (r: Result<(), String>)
        requires
            handle_of(old(self)@, binding_id@) matches Some(handle) ==> os_unregister.requires(
                (handle.0, handle.1),
            ),
        ensures
            match handle_of(old(self)@, binding_id@) {
                None => r is Ok && final(self)@ == old(self)@,
                Some(handle) => {
                    &&& os_unregister.ensures((handle.0, handle.1), r)
                    &&& final(self)@ == (if r is Ok {
                        after_remove(old(self)@, binding_id@)
                    } else {
                        old(self)@
                    })
                },
            },
            r is Err ==> final(self)@ == old(self)@,
            r is Ok ==> final(self)@.by_binding == old(self)@.by_binding.remove(binding_id@),
            old(self)@.by_binding.dom().contains(binding_id@) ==> os_unregister.ensures(
                (
                    old(self)@.by_binding[binding_id@].id,
                    old(self)@.by_binding[binding_id@].category,
                ),
                r,
            ),
            !old(self)@.by_binding.dom().contains(binding_id@) ==> r is Ok,
    {
        let (id, category) = match self.os_handle(binding_id) {
            Some(handle) => handle,
            None => {
                return Ok(());
            },
        };
        let released = os_unregister(id, category);
        if released.is_ok() {
            self.remove(binding_id);
        }
        released
    }
}

/// The id and the manager of a binding.
pub open spec fn handle_of(r: RegistryView, binding_id: Seq<char>) -> Option<
    (u32, ManagerCategory),
> {
    if r.by_binding.dom().contains(binding_id) {
        Some((r.by_binding[binding_id].id, r.by_binding[binding_id].category))
    } else {
        None
    }
}

/// A registration gets as far as the operating system.
pub open spec fn touches_os(r: RegistryView, binding_id: Seq<char>, hotkey: Hotkey) -> bool {
    !is_same_registration(r, binding_id, hotkey) && !collides(r, hotkey, binding_id)
}

/// A combo is refused for a binding exactly where some other binding is
/// registered with it, and the refusal names that owner.
pub proof fn only_another_binding_collides(r: RegistryView, hotkey: Hotkey, binding_id: Seq<char>)
    requires
        coherent(r),
    ensures
        collides(r, hotkey, binding_id) <==> exists|owner: Seq<char>| #[trigger]
            r.by_binding.dom().contains(owner) && owner != binding_id && r.by_binding[owner].hotkey
                == hotkey,
        collides(r, hotkey, binding_id) ==> crate::text::contains_text(
            collision_text(r.by_hotkey[hotkey]),
            r.by_hotkey[hotkey],
        ),
{
    let owner = r.by_hotkey[hotkey];
    if collides(r, hotkey, binding_id) {
        assert(r.by_binding.dom().contains(owner));
    }
    let opening = "Hotkey combination already bound to '"@;
    let text = collision_text(owner);
    let end = opening.len() as int + owner.len() as int;
    assert(text.subrange(opening.len() as int, end) == owner);
    assert(crate::text::occurs_at(text, owner, opening.len() as int));
}

/// A commit records the binding under its combo, its id and its manager, and
/// touches nothing that belongs to another binding, combo or id.
pub proof fn a_commit_records_only_its_own(
    r: RegistryView,
    binding_id: Seq<char>,
    hotkey: Hotkey,
    hotkey_string: Seq<char>,
    id: u32,
    category: ManagerCategory,
)
    ensures
        ({
            let after = after_commit(r, binding_id, hotkey, hotkey_string, id, category);
            &&& after.by_hotkey == r.by_hotkey.insert(hotkey, binding_id)
            &&& after.by_binding == r.by_binding.insert(
                binding_id,
                Registration { hotkey, id, category },
            )
            &&& after.ids(category) == r.ids(category).insert(
                id,
                DispatchView { binding_id, hotkey_string },
            )
            &&& forall|other: ManagerCategory|
                other != category ==> #[trigger] after.ids(other) == r.ids(other)
        }),
{
}

/// Removing a binding leaves every other one alone, and removing one that is
/// not registered leaves everything alone.
pub proof fn a_removal_leaves_the_others(
    r: RegistryView,
    binding_id: Seq<char>,
    other: Seq<char>,
)
    requires
        coherent(r),
        other != binding_id,
    ensures
        after_remove(r, binding_id).by_binding == r.by_binding.remove(binding_id),
        r.by_binding.dom().contains(other) ==> {
            let kept = r.by_binding[other];
            let after = after_remove(r, binding_id);
            &&& after.by_binding.dom().contains(other)
            &&& after.by_binding[other] == kept
            &&& after.by_hotkey.dom().contains(kept.hotkey)
            &&& after.by_hotkey[kept.hotkey] == other
            &&& after.ids(kept.category).dom().contains(kept.id)
            &&& after.ids(kept.category)[kept.id] == r.ids(kept.category)[kept.id]
        },
        !r.by_binding.dom().contains(binding_id) ==> after_remove(r, binding_id) == r,
{
    removal_keeps_coherence_and_frees_the_combo(r, binding_id);
    assert(after_remove(r, binding_id).by_binding =~= r.by_binding.remove(binding_id));
    if r.by_binding.dom().contains(other) {
        assert(after_remove(r, binding_id).by_binding.dom().contains(other));
    }
}

/// The handle of a binding is the id and the manager of its registration, and
/// there is one exactly for a registered binding.
pub proof fn a_handle_belongs_to_a_registration(r: RegistryView, binding_id: Seq<char>)
    ensures
        handle_of(r, binding_id) is Some <==> r.by_binding.dom().contains(binding_id),
        handle_of(r, binding_id) matches Some(handle) ==> handle.0 == r.by_binding[binding_id].id
            && handle.1 == r.by_binding[binding_id].category,
{
}

} // verus!
