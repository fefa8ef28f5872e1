//! How bindings are routed to the operating system's hotkey managers, and what
//! the manager loop does with events and commands.
//!
//! Only the transcribe triggers are blocked system-wide: holding their combo
//! must not type into the focused application. Every other binding is passive.
//! On Linux two exclusive listeners would fight over the input devices, so
//! there every binding goes through a single passive manager and nothing is
//! blocked.

use vstd::prelude::*;

use super::recording::KeyEvent;
use super::registry::{Hotkey, HotkeyRegistry, ManagerCategory};
use crate::keyed_map::KeyedMap;
use crate::settings::{AppSettings, KeyboardImplementation, ShortcutBinding};
use crate::text::{lowercase_text, same_text, trim};

verus! {

/// The operating system.
#[derive(Debug, Clone, Copy, PartialEq, Eq, Structural)]
pub enum Platform {
    Linux,
    MacOs,
    Windows,
}

/// The binding starts a transcription.
pub open spec fn is_transcribe_trigger(binding_id: Seq<char>) -> bool {
    binding_id == "transcribe"@ || binding_id == "transcribe_with_post_process"@
}

/// Whether a binding starts a transcription.
pub fn is_transcribe_binding(binding_id: &str) -> (r: bool)
    ensures
        r == is_transcribe_trigger(binding_id@),
        r <==> binding_id@ == "transcribe"@ || binding_id@ == "transcribe_with_post_process"@,
{
    same_text(binding_id, "transcribe") || same_text(binding_id, "transcribe_with_post_process")
}

/// Whether the combo of a binding should be blocked from other applications.
pub fn should_block_os_key(binding_id: &str) -> (r: bool)
    ensures
        r == is_transcribe_trigger(binding_id@),
        r <==> binding_id@ == "transcribe"@ || binding_id@ == "transcribe_with_post_process"@,
{
    is_transcribe_binding(binding_id)
}

/// The manager that a binding is routed to.
pub open spec fn routed_to(platform: Platform, binding_id: Seq<char>) -> ManagerCategory {
    if platform != Platform::Linux && is_transcribe_trigger(binding_id) {
        ManagerCategory::Blocking
    } else {
        ManagerCategory::Passive
    }
}

/// The manager that a binding is routed to.
pub fn physical_category(platform: Platform, binding_id: &str) -> (r: ManagerCategory)
    ensures
        r == routed_to(platform, binding_id@),
        platform == Platform::Linux ==> r == ManagerCategory::Passive,
        platform != Platform::Linux ==> (r == ManagerCategory::Blocking <==> binding_id@
            == "transcribe"@ || binding_id@ == "transcribe_with_post_process"@),
{
    if platform != Platform::Linux && should_block_os_key(binding_id) {
        ManagerCategory::Blocking
    } else {
        ManagerCategory::Passive
    }
}

/// The managers that run on a platform, in the order in which their events are
/// drained.
pub open spec fn managers_of(platform: Platform) -> Seq<ManagerCategory> {
    if platform == Platform::Linux {
        seq![ManagerCategory::Passive]
    } else {
        seq![ManagerCategory::Blocking, ManagerCategory::Passive]
    }
}

/// The managers that run on a platform, in the order in which their events are
/// drained.
pub fn active_managers(platform: Platform) -> (r: Vec<ManagerCategory>)
    ensures
        r@ == managers_of(platform),
        platform == Platform::Linux ==> r@ == seq![ManagerCategory::Passive],
        platform != Platform::Linux ==> r@ == seq![
            ManagerCategory::Blocking,
            ManagerCategory::Passive,
        ],
{
    let mut managers: Vec<ManagerCategory> = Vec::new();
    if platform != Platform::Linux {
        managers.push(ManagerCategory::Blocking);
    }
    managers.push(ManagerCategory::Passive);
    proof {
        assert(managers@ =~= managers_of(platform));
    }
    managers
}

/// Nothing but the two triggers of a transcription is ever taken away from other
/// applications: the binding `transcribe` and the one with post-processing are
/// routed to the blocking manager on macOS and Windows, every other binding is
/// passive there, and on Linux every binding is.
pub proof fn only_the_transcribe_triggers_are_blocked(platform: Platform, binding_id: Seq<char>)
    ensures
        routed_to(platform, binding_id) == ManagerCategory::Blocking <==> (platform
            == Platform::MacOs || platform == Platform::Windows) && (binding_id == "transcribe"@
            || binding_id == "transcribe_with_post_process"@),
        routed_to(platform, binding_id) == ManagerCategory::Passive <==> platform
            == Platform::Linux || (binding_id != "transcribe"@ && binding_id
            != "transcribe_with_post_process"@),
{
}

/// The blocking manager runs exactly where a transcription trigger is routed to
/// it, and then its events are drained first; the passive one always runs, and
/// no manager runs twice.
pub proof fn the_blocking_manager_runs_off_linux_and_comes_first(platform: Platform)
    ensures
        managers_of(platform).contains(ManagerCategory::Blocking) <==> platform != Platform::Linux,
        platform != Platform::Linux ==> managers_of(platform).first() == ManagerCategory::Blocking,
        managers_of(platform).last() == ManagerCategory::Passive,
        managers_of(platform).no_duplicates(),
{
    let managers = managers_of(platform);
    if platform != Platform::Linux {
        assert(managers[0] == ManagerCategory::Blocking);
    } else {
        assert forall|i: int| 0 <= i < managers.len() implies managers[i]
            != ManagerCategory::Blocking by {
            assert(i == 0);
        }
    }
}

/// Every binding is routed to a manager that runs on its platform.
pub proof fn every_binding_has_a_running_manager(platform: Platform, binding_id: Seq<char>)
    ensures
        managers_of(platform).contains(routed_to(platform, binding_id)),
{
    let managers = managers_of(platform);
    if platform == Platform::Linux {
        assert(managers[0] == ManagerCategory::Passive);
    } else {
        assert(managers[0] == ManagerCategory::Blocking);
        assert(managers[1] == ManagerCategory::Passive);
    }
}

/// The bits of a modifier: one for the left key and one for the right key, where
/// there are two.
pub const CMD: u32 = 0x21;

pub const SHIFT: u32 = 0x42;

pub const CTRL: u32 = 0x84;

pub const OPT: u32 = 0x108;

pub const FN: u32 = 0x10;

/// A key of the modifier `flag` is pressed, on whichever side.
pub open spec fn has_flag(modifiers: u32, flag: u32) -> bool {
    modifiers & flag != 0
}

/// `list`, followed by `name` where `present`.
pub open spec fn with_name(list: Seq<Seq<char>>, present: bool, name: Seq<char>) -> Seq<Seq<char>> {
    if present {
        list.push(name)
    } else {
        list
    }
}

/// The names of the modifiers, in the order ctrl, option, shift, command, fn.
pub open spec fn modifier_names(platform: Platform, m: u32) -> Seq<Seq<char>> {
    let mac = platform == Platform::MacOs;
    let ctrl = with_name(Seq::empty(), has_flag(m, CTRL), "ctrl"@);
    let opt = with_name(
        ctrl,
        has_flag(m, OPT),
        if mac {
            "option"@
        } else {
            "alt"@
        },
    );
    let shift = with_name(opt, has_flag(m, SHIFT), "shift"@);
    let cmd = with_name(
        shift,
        has_flag(m, CMD),
        if mac {
            "command"@
        } else {
            "super"@
        },
    );
    with_name(cmd, has_flag(m, FN), "fn"@)
}

/// Appends `name` where a key of the modifier `flag` is pressed.
fn push_modifier(names: &mut Vec<String>, modifiers: u32, flag: u32, name: &str)
    ensures
        crate::text::texts(final(names)@) == with_name(
            crate::text::texts(old(names)@),
            has_flag(modifiers, flag),
            name@,
        ),
{
    if modifiers & flag != 0 {
        names.push(name.to_owned());
    }
    proof {
        assert(crate::text::texts(names@) =~= with_name(
            crate::text::texts(old(names)@),
            has_flag(modifiers, flag),
            name@,
        ));
    }
}

/// The names tell which modifiers are pressed, on whichever side, and no more:
/// each name is in the list exactly where one of its keys is pressed, the option
/// and command keys under the names of the platform, and no name comes twice.
pub proof fn modifier_names_tell_the_pressed_keys(platform: Platform, m: u32)
    ensures
        modifier_names(platform, m).contains("ctrl"@) <==> m & 0x84 != 0,
        modifier_names(platform, m).contains("shift"@) <==> m & 0x42 != 0,
        modifier_names(platform, m).contains("fn"@) <==> m & 0x10 != 0,
        modifier_names(platform, m).contains("option"@) <==> platform == Platform::MacOs && m
            & 0x108 != 0,
        modifier_names(platform, m).contains("alt"@) <==> platform != Platform::MacOs && m & 0x108
            != 0,
        modifier_names(platform, m).contains("command"@) <==> platform == Platform::MacOs && m
            & 0x21 != 0,
        modifier_names(platform, m).contains("super"@) <==> platform != Platform::MacOs && m & 0x21
            != 0,
        modifier_names(platform, m).no_duplicates(),
{
    reveal_strlit("ctrl");
    reveal_strlit("shift");
    reveal_strlit("fn");
    reveal_strlit("option");
    reveal_strlit("alt");
    reveal_strlit("command");
    reveal_strlit("super");
    assert("ctrl"@[0] == 'c' && "ctrl"@[1] == 't');
    assert("command"@[0] == 'c' && "command"@[1] == 'o');
    assert("shift"@[0] == 's' && "shift"@[1] == 'h');
    assert("super"@[0] == 's' && "super"@[1] == 'u');
    assert("fn"@[0] == 'f');
    assert("option"@[0] == 'o');
    assert("alt"@[0] == 'a');
    let mac = platform == Platform::MacOs;
    let opt_name = if mac {
        "option"@
    } else {
        "alt"@
    };
    let cmd_name = if mac {
        "command"@
    } else {
        "super"@
    };
    let ctrl = with_name(Seq::empty(), has_flag(m, CTRL), "ctrl"@);
    let opt = with_name(ctrl, has_flag(m, OPT), opt_name);
    let shift = with_name(opt, has_flag(m, SHIFT), "shift"@);
    let cmd = with_name(shift, has_flag(m, CMD), cmd_name);
    assert forall|name: Seq<char>| #[trigger]
        ctrl.contains(name) <==> has_flag(m, CTRL) && name == "ctrl"@ by {
        lemma_with_name(Seq::empty(), has_flag(m, CTRL), "ctrl"@, name);
    }
    assert forall|name: Seq<char>| #[trigger]
        opt.contains(name) <==> ctrl.contains(name) || (has_flag(m, OPT) && name == opt_name) by {
        lemma_with_name(ctrl, has_flag(m, OPT), opt_name, name);
    }
    assert forall|name: Seq<char>| #[trigger]
        shift.contains(name) <==> opt.contains(name) || (has_flag(m, SHIFT) && name
            == "shift"@) by {
        lemma_with_name(opt, has_flag(m, SHIFT), "shift"@, name);
    }
    assert forall|name: Seq<char>| #[trigger]
        cmd.contains(name) <==> shift.contains(name) || (has_flag(m, CMD) && name == cmd_name) by {
        lemma_with_name(shift, has_flag(m, CMD), cmd_name, name);
    }
    assert forall|name: Seq<char>| #[trigger]
        modifier_names(platform, m).contains(name) <==> cmd.contains(name) || (has_flag(m, FN)
            && name == "fn"@) by {
        lemma_with_name(cmd, has_flag(m, FN), "fn"@, name);
    }
    lemma_new_name(Seq::empty(), has_flag(m, CTRL), "ctrl"@);
    lemma_new_name(ctrl, has_flag(m, OPT), opt_name);
    lemma_new_name(opt, has_flag(m, SHIFT), "shift"@);
    lemma_new_name(shift, has_flag(m, CMD), cmd_name);
    lemma_new_name(cmd, has_flag(m, FN), "fn"@);
}

proof fn lemma_with_name(
    list: Seq<Seq<char>>,
    present: bool,
    added: Seq<char>,
    name: Seq<char>,
)
    ensures
        with_name(list, present, added).contains(name) <==> list.contains(name) || (present && name
            == added),
{
    let longer = list.push(added);
    if list.contains(name) {
        let i = choose|i: int| 0 <= i < list.len() && list[i] == name;
        assert(longer[i] == name);
    }
    assert(longer[list.len() as int] == added);
}

proof fn lemma_new_name(list: Seq<Seq<char>>, present: bool, added: Seq<char>)
    requires
        list.no_duplicates(),
        !list.contains(added),
    ensures
        with_name(list, present, added).no_duplicates(),
{
}

/// The names of the modifiers of an event.
pub fn modifiers_to_strings(platform: Platform, modifiers: u32) -> (r: Vec<String>)
    ensures
        crate::text::texts(r@) == modifier_names(platform, modifiers),
        crate::text::texts(r@) == (if modifiers & 0x84 != 0 {
            seq!["ctrl"@]
        } else {
            Seq::empty()
        }) + (if modifiers & 0x108 != 0 {
            seq![
                if platform == Platform::MacOs {
                    "option"@
                } else {
                    "alt"@
                },
            ]
        } else {
            Seq::empty()
        }) + (if modifiers & 0x42 != 0 {
            seq!["shift"@]
        } else {
            Seq::empty()
        }) + (if modifiers & 0x21 != 0 {
            seq![
                if platform == Platform::MacOs {
                    "command"@
                } else {
                    "super"@
                },
            ]
        } else {
            Seq::empty()
        }) + (if modifiers & 0x10 != 0 {
            seq!["fn"@]
        } else {
            Seq::empty()
        }),
{
    let mac: bool = platform == Platform::MacOs;
    let mut names: Vec<String> = Vec::new();
    proof {
        assert(crate::text::texts(names@) =~= Seq::<Seq<char>>::empty());
    }
    push_modifier(&mut names, modifiers, CTRL, "ctrl");
    push_modifier(
        &mut names,
        modifiers,
        OPT,
        if mac {
            "option"
        } else {
            "alt"
        },
    );
    push_modifier(&mut names, modifiers, SHIFT, "shift");
    push_modifier(
        &mut names,
        modifiers,
        CMD,
        if mac {
            "command"
        } else {
            "super"
        },
    );
    push_modifier(&mut names, modifiers, FN, "fn");
    names
}

/// A key event shown to the user during a recording.
#[derive(Debug)]
pub struct FrontendKeyEvent {
    /// Currently pressed modifier keys.
    pub modifiers: Vec<String>,
    /// The key that was pressed, if any.
    pub key: Option<String>,
    pub is_key_down: bool,
    /// The full combo, such as `option+space`.
    pub hotkey_string: String,
}

/// The event to show for a key event: its key in lower case, and an empty combo
/// where the event makes none.
pub fn frontend_event(platform: Platform, event: &KeyEvent) -> (r: FrontendKeyEvent)
    ensures
        crate::text::texts(r.modifiers@) == modifier_names(platform, event.modifiers),
        crate::text::optional_text(r.key) == match event.key {
            Some(key) => Some(crate::text::lowercase(key@)),
            None => None,
        },
        r.is_key_down == event.is_key_down,
        r.hotkey_string@ == match event.hotkey_string {
            Some(combo) => combo@,
            None => ""@,
        },
{
    let key: Option<String> = match &event.key {
        Some(key) => Some(lowercase_text(key.as_str())),
        None => None,
    };
    let hotkey_string: String = match &event.hotkey_string {
        Some(combo) => combo.clone(),
        None => "".to_owned(),
    };
    FrontendKeyEvent {
        modifiers: modifiers_to_strings(platform, event.modifiers),
        key,
        is_key_down: event.is_key_down,
        hotkey_string,
    }
}

/// Whether a shortcut text may be used: it must not be blank, and `parsed` says
/// whether it names a combo.
pub fn validate_shortcut(raw: &str, parsed: Result<Hotkey, String>) -> (r: Result<(), String>)
    ensures
        r is Ok == (!crate::text::is_blank(raw@) && parsed is Ok),
        r matches Err(error) ==> error@ == (if crate::text::is_blank(raw@) {
            "Shortcut cannot be empty"@
        } else {
            "Invalid shortcut for HandyKeys: "@ + parsed->Err_0@
        }),
{
    proof {
        crate::text::trimmed_is_empty_exactly_for_blank(raw@);
    }
    if trim(raw).unicode_len() == 0 {
        return Err("Shortcut cannot be empty".to_owned());
    }
    match parsed {
        Ok(_) => Ok(()),
        Err(error) => {
            let mut text: String = "Invalid shortcut for HandyKeys: ".to_owned();
            text.append(error.as_str());
            Err(text)
        },
    }
}

/// The text that reports an unreadable combo.
pub open spec fn parse_error_text(hotkey_string: Seq<char>, error: Seq<char>) -> Seq<char> {
    "Failed to parse hotkey '"@ + hotkey_string + "': "@ + error
}

/// What a registration answers and leaves behind: a combo that cannot be read,
/// one that another binding owns, and one that the operating system refuses
/// each have their error and change nothing; the binding's own combo changes
/// nothing either; any other combo is recorded under the id that the operating
/// system gave it, and an earlier combo of the binding is released.
pub open spec fn register_outcome<
    F: FnOnce(Hotkey, ManagerCategory) -> Result<u32, String>,
    G: FnOnce(u32, ManagerCategory) -> Result<(), String>,
>(
    before: super::registry::RegistryView,
    after: super::registry::RegistryView,
    platform: Platform,
    binding_id: Seq<char>,
    hotkey_string: Seq<char>,
    parsed: Result<Hotkey, String>,
    os_register: F,
    os_unregister: G,
    answer: Result<(), String>,
) -> bool {
    let category = routed_to(platform, binding_id);
    &&& answer is Err ==> after == before
    &&& match parsed {
        Err(error) => answer is Err && answer->Err_0@ == parse_error_text(hotkey_string, error@),
        Ok(hotkey) => if super::registry::is_same_registration(before, binding_id, hotkey) {
            answer is Ok && after == before
        } else if super::registry::collides(before, hotkey, binding_id) {
            answer is Err && answer->Err_0@ == super::registry::collision_text(
                before.by_hotkey[hotkey],
            )
        } else {
            match answer {
                Ok(_) => {
                    &&& exists|id: u32|
                        {
                            &&& os_register.ensures((hotkey, category), Ok(id))
                            &&& after == #[trigger] super::registry::after_commit(
                                super::registry::after_remove(before, binding_id),
                                binding_id,
                                hotkey,
                                hotkey_string,
                                id,
                                category,
                            )
                        }
                    &&& super::registry::handle_of(before, binding_id) matches Some(handle)
                        ==> exists|released: Result<(), String>| #[trigger]
                        os_unregister.ensures((handle.0, handle.1), released)
                },
                Err(error) => os_register.ensures((hotkey, category), Err(error)),
            }
        },
    }
}

/// What a registration may ask of the operating system: to register the combo,
/// and, only once that has succeeded, to release an earlier combo of the binding.
pub open spec fn may_register<
    F: FnOnce(Hotkey, ManagerCategory) -> Result<u32, String>,
    G: FnOnce(u32, ManagerCategory) -> Result<(), String>,
>(
    before: super::registry::RegistryView,
    platform: Platform,
    binding_id: Seq<char>,
    parsed: Result<Hotkey, String>,
    os_register: F,
    os_unregister: G,
) -> bool {
    let category = routed_to(platform, binding_id);
    parsed matches Ok(hotkey) ==> super::registry::touches_os(before, binding_id, hotkey) ==> {
        &&& os_register.requires((hotkey, category))
        &&& super::registry::handle_of(before, binding_id) matches Some(handle) ==> forall|id: u32|
            #[trigger]
            os_register.ensures((hotkey, category), Ok(id)) ==> os_unregister.requires(
                (handle.0, handle.1),
            )
    }
}

/// Registers a binding with the manager that it is routed to.
///
/// `parsed` is what `hotkey_string` reads as. A combo that cannot be read, one
/// that another binding owns, and one that the operating system refuses all
/// leave the registry as it was.
pub fn do_register<
    F: FnOnce(Hotkey, ManagerCategory) -> Result<u32, String>,
    G: FnOnce(u32, ManagerCategory) -> Result<(), String>,
>(
    registry: &mut HotkeyRegistry,
    platform: Platform,
    binding_id: &str,
    hotkey_string: &str,
    parsed: Result<Hotkey, String>,
    os_register: F,
    os_unregister: G,
) -> (r: Result<(), String>)
    requires
        may_register(
            old(registry)@,
            platform,
            binding_id@,
            parsed,
            os_register,
            os_unregister,
        ),
    ensures
        register_outcome(
            old(registry)@,
            final(registry)@,
            platform,
            binding_id@,
            hotkey_string@,
            parsed,
            os_register,
            os_unregister,
            r,
        ),
        r is Err ==> final(registry)@ == old(registry)@,
        parsed matches Err(error) ==> r is Err && r->Err_0@ == "Failed to parse hotkey '"@
            + hotkey_string@ + "': "@ + error@,
        r is Ok ==> parsed is Ok && {
            let had = old(registry)@.by_binding;
            let has = final(registry)@.by_binding;
            &&& has.dom().contains(binding_id@)
            &&& has[binding_id@].hotkey == parsed->Ok_0
            &&& forall|other: Seq<char>|
                other != binding_id@ ==> has.dom().contains(other) == had.dom().contains(other)
                    && #[trigger] has[other] == had[other]
            &&& if had.dom().contains(binding_id@) && had[binding_id@].hotkey == parsed->Ok_0 {
                final(registry)@ == old(registry)@
            } else {
                &&& has[binding_id@].category == ManagerCategory::Blocking <==> platform
                    != Platform::Linux && (binding_id@ == "transcribe"@ || binding_id@
                    == "transcribe_with_post_process"@)
                &&& os_register.ensures(
                    (parsed->Ok_0, has[binding_id@].category),
                    Ok(has[binding_id@].id),
                )
                &&& final(registry)@.ids(has[binding_id@].category)[has[binding_id@].id] == (
                super::registry::DispatchView {
                    binding_id: binding_id@,
                    hotkey_string: hotkey_string@,
                })
            }
        },
{
    let hotkey: Hotkey = match parsed {
        Ok(hotkey) => hotkey,
        Err(error) => {
            let mut text: String = "Failed to parse hotkey '".to_owned();
            text.append(hotkey_string);
            text.append("': ");
            text.append(error.as_str());
            return Err(text);
        },
    };
    let category: ManagerCategory = physical_category(platform, binding_id);
    let register_there = |hk: Hotkey| -> (id: Result<u32, String>)
        requires
            os_register.requires((hk, category)),
        ensures
            os_register.ensures((hk, category), id),
        { os_register(hk, category) };
    registry.register_transactional(
        binding_id,
        hotkey,
        hotkey_string,
        category,
        register_there,
        os_unregister,
    )
}

/// What the manager loop has received.
#[derive(Debug)]
pub enum ManagerCommand {
    /// Register a binding; `parsed` is what its combo reads as.
    Register { binding_id: String, hotkey_string: String, parsed: Result<Hotkey, String> },
    Unregister { binding_id: String },
    Shutdown,
    /// Nothing arrived in time.
    Timeout,
    /// Nobody can send any more.
    Disconnected,
}

/// What the manager loop does next.
#[derive(Debug)]
pub enum ManagerStep {
    /// Answer the sender and go on.
    Respond(Result<(), String>),
    Continue,
    Stop,
}

/// Carries one command of the manager loop out.
pub fn process_command<
    F: FnOnce(Hotkey, ManagerCategory) -> Result<u32, String>,
    G: FnOnce(u32, ManagerCategory) -> Result<(), String>,
>(
    registry: &mut HotkeyRegistry,
    platform: Platform,
    command: ManagerCommand,
    os_register: F,
    os_unregister: G,
) -> (r: ManagerStep)
    requires
        command matches ManagerCommand::Register { binding_id, hotkey_string, parsed }
            ==> may_register(
            old(registry)@,
            platform,
            binding_id@,
            parsed,
            os_register,
            os_unregister,
        ),
        command matches ManagerCommand::Unregister { binding_id } ==> (super::registry::handle_of(
            old(registry)@,
            binding_id@,
        ) matches Some(handle) ==> os_unregister.requires((handle.0, handle.1))),
    ensures
        !(r matches ManagerStep::Respond(Ok(_))) ==> final(registry)@ == old(registry)@,
        match command {
            ManagerCommand::Register { binding_id, hotkey_string, parsed } => {
                &&& r is Respond
                &&& register_outcome(
                    old(registry)@,
                    final(registry)@,
                    platform,
                    binding_id@,
                    hotkey_string@,
                    parsed,
                    os_register,
                    os_unregister,
                    r->Respond_0,
                )
            },
            ManagerCommand::Unregister { binding_id } => {
                &&& r is Respond
                &&& match super::registry::handle_of(old(registry)@, binding_id@) {
                    None => r->Respond_0 is Ok && final(registry)@ == old(registry)@,
                    Some(handle) => {
                        &&& os_unregister.ensures((handle.0, handle.1), r->Respond_0)
                        &&& r->Respond_0 is Ok ==> final(registry)@
                            == super::registry::after_remove(old(registry)@, binding_id@)
                    },
                }
            },
            ManagerCommand::Shutdown | ManagerCommand::Disconnected => r is Stop,
            ManagerCommand::Timeout => r is Continue,
        },
        command matches ManagerCommand::Register { binding_id, hotkey_string, parsed } ==> r is Respond
            && (r->Respond_0 is Ok ==> parsed is Ok && {
            let had = old(registry)@.by_binding;
            let has = final(registry)@.by_binding;
            &&& has.dom().contains(binding_id@)
            &&& has[binding_id@].hotkey == parsed->Ok_0
            &&& !(had.dom().contains(binding_id@) && had[binding_id@].hotkey == parsed->Ok_0) ==> (
            has[binding_id@].category == ManagerCategory::Blocking <==> platform != Platform::Linux
                && (binding_id@ == "transcribe"@ || binding_id@ == "transcribe_with_post_process"@))
        }),
        command matches ManagerCommand::Unregister { binding_id } ==> r is Respond && (
        r->Respond_0 is Ok ==> final(registry)@.by_binding == old(registry)@.by_binding.remove(
            binding_id@,
        )),
{
    match command {
        ManagerCommand::Register { binding_id, hotkey_string, parsed } => ManagerStep::Respond(
            do_register(
                registry,
                platform,
                binding_id.as_str(),
                hotkey_string.as_str(),
                parsed,
                os_register,
                os_unregister,
            ),
        ),
        ManagerCommand::Unregister { binding_id } => ManagerStep::Respond(
            registry.unregister_transactional(binding_id.as_str(), os_unregister),
        ),
        ManagerCommand::Shutdown => ManagerStep::Stop,
        ManagerCommand::Disconnected => ManagerStep::Stop,
        ManagerCommand::Timeout => ManagerStep::Continue,
    }
}

/// A shortcut that was pressed or released.
#[derive(Debug)]
pub struct ShortcutEvent {
    pub binding_id: String,
    pub hotkey_string: String,
    pub is_pressed: bool,
}

/// What an operating system event triggers: the binding that owns the id, unless
/// keys are being captured for a new combo. Whether they are is asked only for
/// an id that some binding owns.
pub fn dispatch_event<F: FnOnce() -> bool>(
    registry: &HotkeyRegistry,
    category: ManagerCategory,
    id: u32,
    is_pressed: bool,
    is_capturing: F,
) -> (r: Option<ShortcutEvent>)
    requires
        registry@.ids(category).dom().contains(id) ==> is_capturing.requires(()),
    ensures
        if registry@.ids(category).dom().contains(id) {
            is_capturing.ensures((), r is None)
        } else {
            r is None
        },
        r matches Some(event) ==> event.binding_id@ == registry@.ids(category)[id].binding_id
            && event.hotkey_string@ == registry@.ids(category)[id].hotkey_string
            && event.is_pressed == is_pressed,
{
    match registry.dispatch_target(category, &id) {
        Some(target) => {
            if is_capturing() {
                None
            } else {
                Some(
                    ShortcutEvent {
                        binding_id: target.binding_id.clone(),
                        hotkey_string: target.hotkey_string.clone(),
                        is_pressed,
                    },
                )
            }
        },
        None => None,
    }
}

/// The binding that applies for `id`: the user's own, else the default.
pub open spec fn chosen_binding(
    id: Seq<char>,
    default_binding: ShortcutBinding,
    user: Map<Seq<char>, ShortcutBinding>,
) -> ShortcutBinding {
    if user.dom().contains(id) {
        user[id]
    } else {
        default_binding
    }
}

/// The binding `id` is registered at startup: the cancel shortcut is registered
/// only while recording, the post-processing one only where that is enabled,
/// and a blank combo not at all.
pub open spec fn registered_at_startup(
    id: Seq<char>,
    binding: ShortcutBinding,
    post_process_enabled: bool,
) -> bool {
    &&& id != "cancel"@
    &&& id == "transcribe_with_post_process"@ ==> post_process_enabled
    &&& !crate::text::is_blank(binding.current_binding@)
}

/// The bindings registered at startup, in the order of the defaults.
pub open spec fn startup_list(
    defaults: Seq<(String, ShortcutBinding)>,
    user: Map<Seq<char>, ShortcutBinding>,
    post_process_enabled: bool,
) -> Seq<ShortcutBinding>
    decreases defaults.len(),
{
    if defaults.len() == 0 {
        Seq::empty()
    } else {
        let before = startup_list(defaults.drop_last(), user, post_process_enabled);
        let id = defaults.last().0@;
        let binding = chosen_binding(id, defaults.last().1, user);
        if registered_at_startup(id, binding, post_process_enabled) {
            before.push(binding)
        } else {
            before
        }
    }
}

/// The bindings to register at startup.
pub fn startup_bindings(
    defaults: &KeyedMap<String, ShortcutBinding>,
    settings: &AppSettings,
) -> (r: Vec<ShortcutBinding>)
    ensures
        r@ == startup_list(defaults.pairs(), settings.bindings@, settings.post_process_enabled),
{
    let mut list: Vec<ShortcutBinding> = Vec::new();
    let mut i: usize = 0;
    let n: usize = defaults.len();
    while i < n
        invariant
            n == defaults.pairs().len(),
            i <= n,
            list@ == startup_list(
                defaults.pairs().take(i as int),
                settings.bindings@,
                settings.post_process_enabled,
            ),
        decreases n - i,
    {
        let id: &String = defaults.key_at(i);
        let binding: ShortcutBinding = match settings.bindings.get(id) {
            Some(own) => own.clone(),
            None => defaults.value_at(i).clone(),
        };
        proof {
            let longer = defaults.pairs().take(i + 1);
            assert(longer.drop_last() == defaults.pairs().take(i as int));
            crate::text::trimmed_is_empty_exactly_for_blank(binding.current_binding@);
        }
        if !same_text(id.as_str(), "cancel") && (!same_text(
            id.as_str(),
            "transcribe_with_post_process",
        ) || settings.post_process_enabled) && trim(binding.current_binding.as_str()).unicode_len()
            != 0 {
            list.push(binding);
        }
        i += 1;
    }
    proof {
        assert(defaults.pairs().take(n as int) == defaults.pairs());
    }
    list
}

/// Whether shortcuts that exist only while recording are used on a platform.
pub fn uses_recording_shortcuts(platform: Platform) -> (r: bool)
    ensures
        r == (platform != Platform::Linux),
{
    platform != Platform::Linux
}

/// The cancel shortcut to register while recording, if any.
pub fn cancel_shortcut(platform: Platform, settings: &AppSettings) -> (r: Option<ShortcutBinding>)
    ensures
        r == (if platform != Platform::Linux && settings.bindings@.dom().contains("cancel"@) {
            Some(settings.bindings@["cancel"@])
        } else {
            None
        }),
{
    if !uses_recording_shortcuts(platform) {
        return None;
    }
    match settings.bindings.get(&"cancel".to_owned()) {
        Some(binding) => Some(binding.clone()),
        None => None,
    }
}

/// Refuses a recording where another implementation listens for shortcuts.
pub fn check_recording_available(settings: &AppSettings) -> (r: Result<(), String>)
    ensures
        r is Ok == (settings.keyboard_implementation == KeyboardImplementation::HandyKeys),
        r matches Err(error) ==> error@
            == "handy-keys is not the active keyboard implementation"@,
{
    if settings.keyboard_implementation == KeyboardImplementation::HandyKeys {
        Ok(())
    } else {
        Err("handy-keys is not the active keyboard implementation".to_owned())
    }
}

/// The bindings to register at startup are found one by one: those of two lists
/// of defaults, one behind the other, are those of the first followed by those
/// of the second.
pub proof fn startup_bindings_are_found_one_by_one(
    first: Seq<(String, ShortcutBinding)>,
    second: Seq<(String, ShortcutBinding)>,
    user: Map<Seq<char>, ShortcutBinding>,
    post_process_enabled: bool,
)
    ensures
        startup_list(first + second, user, post_process_enabled) == startup_list(
            first,
            user,
            post_process_enabled,
        ) + startup_list(second, user, post_process_enabled),
    decreases second.len(),
{
    if second.len() == 0 {
        assert(first + second == first);
    } else {
        let whole = first + second;
        startup_bindings_are_found_one_by_one(
            first,
            second.drop_last(),
            user,
            post_process_enabled,
        );
        assert(whole.drop_last() == first + second.drop_last());
        assert(whole.last() == second.last());
    }
}

/// A single default is registered at startup unless it is the cancel shortcut,
/// the post-processing shortcut while that is disabled, or a blank combo; the
/// user's own binding goes before the default one.
pub proof fn which_default_is_registered_at_startup(
    id: String,
    default_binding: ShortcutBinding,
    user: Map<Seq<char>, ShortcutBinding>,
    post_process_enabled: bool,
)
    ensures
        ({
            let binding = if user.dom().contains(id@) {
                user[id@]
            } else {
                default_binding
            };
            let left_out = id@ == "cancel"@ || (id@ == "transcribe_with_post_process"@
                && !post_process_enabled) || crate::text::is_blank(binding.current_binding@);
            let list = startup_list(seq![(id, default_binding)], user, post_process_enabled);
            &&& left_out ==> list.len() == 0
            &&& !left_out ==> list == seq![binding]
        }),
{
    let one = seq![(id, default_binding)];
    assert(one.drop_last().len() == 0);
    assert(one.last() == (id, default_binding));
    assert(startup_list(one.drop_last(), user, post_process_enabled) == Seq::<
        ShortcutBinding,
    >::empty());
}

} // verus!
