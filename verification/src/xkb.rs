//! Keyboard state tracking: per-device keymap and modifier state, keysym
//! lookup, and the press pipeline that routes keysyms through the compose
//! machine to derive the committed text of a key event.

use vstd::prelude::*;

use crate::compose::ComposeEngine;
use crate::compose::ComposeModel;
use crate::compose::ComposeStatus;
use crate::compose::compose_wf;
use crate::compose::feed_model;
use crate::compose::is_first_exact;
use crate::compose::reset_model;
use crate::events::ElementState;
use crate::events::ModifiersState;
use crate::events::VirtualKeyCode;

verus! {

/// The modifier bit of Shift in an effective modifier mask.
pub const SHIFT_MASK: u32 = 1;

/// The modifier bit of Control.
pub const CONTROL_MASK: u32 = 4;

/// The modifier bit of the first extra modifier, conventionally Alt.
pub const MOD1_MASK: u32 = 8;

/// The modifier bit of the fourth extra modifier, conventionally the
/// logo key.
pub const MOD4_MASK: u32 = 64;

/// Converts a raw keyboard keycode to a keymap keycode. The raw protocol
/// carries keycodes between 8 and 255; values outside that range are a
/// malformed event and are excluded by precondition.
pub fn xkb_keycode_from_x11_keycode(keycode: i32) -> (r: u32)
    requires
        8 <= keycode <= 255,
    ensures
        r == keycode,
{
    keycode as u32
}

/// Why bringing up the keyboard extension failed.
#[derive(Debug, Copy, Clone, PartialEq, Eq, Structural)]
pub enum XkbInitError {
    /// The keyboard library could not be loaded.
    LibxkbcommonUnavailable,
    /// The display server refused the keyboard extension.
    ExtensionSetupFailed,
    /// The keyboard context could not be allocated.
    ContextIsNull,
    /// The server reported no valid core keyboard device.
    CoreDeviceIdInvalid,
}

/// Validates the keyboard-extension bring-up, in the order the checks are
/// made: library presence, extension setup status, a non-null context
/// handle, and a valid core device.
pub fn validate_xkb_setup(
    library_available: bool,
    extension_status: i32,
    context: u64,
    core_device_id: i32,
) -> (r: Result<(), XkbInitError>)
    ensures
        !library_available ==> r == Err::<(), XkbInitError>(XkbInitError::LibxkbcommonUnavailable),
        library_available && extension_status == 0 ==> r == Err::<(), XkbInitError>(
            XkbInitError::ExtensionSetupFailed,
        ),
        library_available && extension_status != 0 && context == 0 ==> r == Err::<(), XkbInitError>(
            XkbInitError::ContextIsNull,
        ),
        library_available && extension_status != 0 && context != 0 && core_device_id == -1 ==> r
            == Err::<(), XkbInitError>(XkbInitError::CoreDeviceIdInvalid),
        library_available && extension_status != 0 && context != 0 && core_device_id != -1 ==> r
            == Ok::<(), XkbInitError>(()),
{
    if !library_available {
        Err(XkbInitError::LibxkbcommonUnavailable)
    } else if extension_status == 0 {
        Err(XkbInitError::ExtensionSetupFailed)
    } else if context == 0 {
        Err(XkbInitError::ContextIsNull)
    } else if core_device_id == -1 {
        Err(XkbInitError::CoreDeviceIdInvalid)
    } else {
        Ok(())
    }
}

/// Why per-device keyboard state could not be compiled.
#[derive(Debug, Copy, Clone, PartialEq, Eq, Structural)]
pub enum XkbStateInitError {
    /// The device's keymap could not be compiled.
    KeymapIsNull,
    /// The device's state object could not be allocated.
    StateIsNull,
    /// The keyboard extension was not initialized, so its events cannot
    /// be selected.
    XkbExtNotInitialized,
}

/// Validates per-device state bring-up: a compiled keymap, an allocated
/// state object, and a successful event selection, checked in that order.
pub fn validate_xkb_state_setup(keymap: u64, state: u64, events_selected: bool) -> (r: Result<
    (),
    XkbStateInitError,
>)
    ensures
        keymap == 0 ==> r == Err::<(), XkbStateInitError>(XkbStateInitError::KeymapIsNull),
        keymap != 0 && state == 0 ==> r == Err::<(), XkbStateInitError>(
            XkbStateInitError::StateIsNull,
        ),
        keymap != 0 && state != 0 && !events_selected ==> r == Err::<(), XkbStateInitError>(
            XkbStateInitError::XkbExtNotInitialized,
        ),
        keymap != 0 && state != 0 && events_selected ==> r == Ok::<(), XkbStateInitError>(()),
{
    if keymap == 0 {
        Err(XkbStateInitError::KeymapIsNull)
    } else if state == 0 {
        Err(XkbStateInitError::StateIsNull)
    } else if !events_selected {
        Err(XkbStateInitError::XkbExtNotInitialized)
    } else {
        Ok(())
    }
}

/// Why the compose machine could not be brought up. Compose support is
/// optional: any of these degrades keyboard input to direct text, it
/// never fails the loop.
#[derive(Debug, Copy, Clone, PartialEq, Eq, Structural)]
pub enum XkbComposeInitError {
    /// The compose half of the keyboard library could not be loaded.
    ComposeUnavailable,
    /// No compose table could be compiled for the locale.
    ComposeTableIsNull,
    /// The compose state object could not be allocated.
    ComposeStateIsNull,
}

/// Validates compose bring-up: library presence, a compiled table, and an
/// allocated state object, checked in that order.
pub fn validate_compose_setup(library_available: bool, table: u64, state: u64) -> (r: Result<
    (),
    XkbComposeInitError,
>)
    ensures
        !library_available ==> r == Err::<(), XkbComposeInitError>(
            XkbComposeInitError::ComposeUnavailable,
        ),
        library_available && table == 0 ==> r == Err::<(), XkbComposeInitError>(
            XkbComposeInitError::ComposeTableIsNull,
        ),
        library_available && table != 0 && state == 0 ==> r == Err::<(), XkbComposeInitError>(
            XkbComposeInitError::ComposeStateIsNull,
        ),
        library_available && table != 0 && state != 0 ==> r == Ok::<(), XkbComposeInitError>(()),
{
    if !library_available {
        Err(XkbComposeInitError::ComposeUnavailable)
    } else if table == 0 {
        Err(XkbComposeInitError::ComposeTableIsNull)
    } else if state == 0 {
        Err(XkbComposeInitError::ComposeStateIsNull)
    } else {
        Ok(())
    }
}

/// One keymap binding: a keycode, the keysym it produces in the current
/// layout, and the text it commits directly (empty for keys that commit
/// nothing).
#[derive(Debug, Clone, PartialEq, Eq)]
pub struct KeymapEntry {
    pub keycode: u32,
    pub keysym: u32,
    pub utf8: String,
}

/// Spec-level image of one binding.
pub struct KeymapEntryModel {
    pub keycode: u32,
    pub keysym: u32,
    pub utf8: Seq<char>,
}

/// The spec-level image of a binding.
pub open spec fn entry_model(e: KeymapEntry) -> KeymapEntryModel {
    KeymapEntryModel { keycode: e.keycode, keysym: e.keysym, utf8: e.utf8@ }
}

/// Whether some binding covers `keycode`.
pub open spec fn has_entry(entries: Seq<KeymapEntryModel>, keycode: u32) -> bool {
    exists|i: int| 0 <= i < entries.len() && (#[trigger] entries[i]).keycode == keycode
}

/// Whether `i` is the first binding covering `keycode`.
pub open spec fn is_first_entry(entries: Seq<KeymapEntryModel>, keycode: u32, i: int) -> bool {
    &&& 0 <= i < entries.len()
    &&& entries[i].keycode == keycode
    &&& forall|j: int| 0 <= j < i ==> (#[trigger] entries[j]).keycode != keycode
}

/// The first binding covering `keycode` is unique.
/// The keysym the keymap gives `keycode` directly: the first covering
/// binding's keysym, or zero (no symbol) when nothing covers it.
pub open spec fn spec_direct_keysym(entries: Seq<KeymapEntryModel>, keycode: u32) -> u32 {
    if has_entry(entries, keycode) {
        entries[choose|i: int| is_first_entry(entries, keycode, i)].keysym
    } else {
        0
    }
}

/// The text the keymap commits for `keycode` directly: the first covering
/// binding's text — where an empty text, like a missing binding, commits
/// nothing.
pub open spec fn spec_direct_text(entries: Seq<KeymapEntryModel>, keycode: u32) -> Option<
    Seq<char>,
> {
    if has_entry(entries, keycode) {
        let text = entries[choose|i: int| is_first_entry(entries, keycode, i)].utf8;
        if text.len() == 0 {
            None
        } else {
            Some(text)
        }
    } else {
        None
    }
}

/// Whether an executable committed text matches a spec-level one.
pub open spec fn opt_text_matches(r: Option<String>, expected: Option<Seq<char>>) -> bool {
    match r {
        Some(s) => expected == Some(s@),
        None => expected is None,
    }
}

pub proof fn lemma_first_entry_unique(
    entries: Seq<KeymapEntryModel>,
    keycode: u32,
    i: int,
    j: int,
)
    requires
        is_first_entry(entries, keycode, i),
        is_first_entry(entries, keycode, j),
    ensures
        i == j,
{
}

/// The modifier snapshot a mask encodes.
pub open spec fn spec_modifiers_from_mask(effective: u32) -> ModifiersState {
    ModifiersState {
        shift: effective & SHIFT_MASK != 0,
        ctrl: effective & CONTROL_MASK != 0,
        alt: effective & MOD1_MASK != 0,
        logo: effective & MOD4_MASK != 0,
    }
}

/// Reads the modifier snapshot out of an effective modifier mask.
pub fn modifiers_from_mask(effective: u32) -> (r: ModifiersState)
    ensures
        r == spec_modifiers_from_mask(effective),
{
    ModifiersState {
        shift: effective & SHIFT_MASK != 0,
        ctrl: effective & CONTROL_MASK != 0,
        alt: effective & MOD1_MASK != 0,
        logo: effective & MOD4_MASK != 0,
    }
}

/// Live keyboard state of one device: the compiled keymap bindings, the
/// raw modifier and layout components last reported, and the optional
/// compose machine (absent when compose support is unavailable).
pub struct XkbState {
    pub entries: Vec<KeymapEntry>,
    pub depressed_mods: u32,
    pub latched_mods: u32,
    pub locked_mods: u32,
    pub depressed_layout: u32,
    pub latched_layout: u32,
    pub locked_layout: u32,
    pub compose: Option<ComposeEngine>,
}

impl XkbState {
    /// The spec-level image of the keymap.
    pub open spec fn entries_model(&self) -> Seq<KeymapEntryModel> {
        self.entries@.map_values(|e: KeymapEntry| entry_model(e))
    }

    /// The spec-level image of the compose machine, if present.
    pub open spec fn compose_model(&self) -> Option<ComposeModel> {
        match self.compose {
            Some(engine) => Some(engine@),
            None => None,
        }
    }

    /// Whether the compose machine, if any, is well formed.
    pub open spec fn wf(&self) -> bool {
        match self.compose_model() {
            Some(m) => compose_wf(m),
            None => true,
        }
    }

    /// A fresh device state over a compiled keymap, with no modifiers
    /// active.
    pub fn new(entries: Vec<KeymapEntry>, compose: Option<ComposeEngine>) -> (r: Self)
        requires
            (compose matches Some(engine) ==> compose_wf(engine@)),
        ensures
            r.entries == entries,
            r.compose == compose,
            r.depressed_mods == 0 && r.latched_mods == 0 && r.locked_mods == 0,
            r.wf(),
    {
        XkbState {
            entries,
            depressed_mods: 0,
            latched_mods: 0,
            locked_mods: 0,
            depressed_layout: 0,
            latched_layout: 0,
            locked_layout: 0,
            compose,
        }
    }

    /// Installs the modifier and layout components of a state-change
    /// notification.
    pub fn update(
        &mut self,
        depressed_mods: u32,
        latched_mods: u32,
        locked_mods: u32,
        depressed_layout: u32,
        latched_layout: u32,
        locked_layout: u32,
    )
        ensures
            final(self).depressed_mods == depressed_mods,
            final(self).latched_mods == latched_mods,
            final(self).locked_mods == locked_mods,
            final(self).depressed_layout == depressed_layout,
            final(self).latched_layout == latched_layout,
            final(self).locked_layout == locked_layout,
            final(self).entries == old(self).entries,
            final(self).compose == old(self).compose,
    {
        self.depressed_mods = depressed_mods;
        self.latched_mods = latched_mods;
        self.locked_mods = locked_mods;
        self.depressed_layout = depressed_layout;
        self.latched_layout = latched_layout;
        self.locked_layout = locked_layout;
    }

    /// The effective modifier mask: depressed, latched and locked
    /// modifiers combined.
    pub open spec fn effective_mods(&self) -> u32 {
        self.depressed_mods | self.latched_mods | self.locked_mods
    }

    /// The modifier snapshot of the current state.
    pub fn get_modifiers(&self) -> (r: ModifiersState)
        ensures
            r == spec_modifiers_from_mask(self.effective_mods()),
    {
        modifiers_from_mask(self.depressed_mods | self.latched_mods | self.locked_mods)
    }

    /// First binding covering `keycode`, if any.
    fn find_entry(&self, keycode: u32) -> (r: Option<usize>)
        ensures
            r is Some ==> is_first_entry(self.entries_model(), keycode, r->Some_0 as int),
            r is None ==> !has_entry(self.entries_model(), keycode),
    {
        let n = self.entries.len();
        let mut i: usize = 0;
        while i < n
            invariant
                i <= n,
                n == self.entries@.len(),
                forall|j: int| 0 <= j < i ==> (#[trigger] self.entries_model()[j]).keycode != keycode,
            decreases n - i,
        {
            if self.entries[i].keycode == keycode {
                proof {
                    assert(self.entries_model()[i as int].keycode == keycode);
                }
                return Some(i);
            }
            i = i + 1;
        }
        None
    }

    /// The keysym `keycode` produces, or zero (no symbol) when the keymap
    /// does not cover it.
    pub fn get_keysym(&self, keycode: u32) -> (r: u32)
        ensures
            r == spec_direct_keysym(self.entries_model(), keycode),
    {
        let found = self.find_entry(keycode);
        match found {
            Some(i) => {
                proof {
                    lemma_first_entry_unique(
                        self.entries_model(),
                        keycode,
                        i as int,
                        choose|k: int| is_first_entry(self.entries_model(), keycode, k),
                    );
                }
                self.entries[i].keysym
            },
            None => 0,
        }
    }

    /// The text `keycode` commits directly, or `None` when the keymap does
    /// not cover it or it commits nothing.
    fn get_utf8_direct(&self, keycode: u32) -> (r: Option<String>)
        ensures
            opt_text_matches(r, spec_direct_text(self.entries_model(), keycode)),
    {
        let found = self.find_entry(keycode);
        match found {
            Some(i) => {
                proof {
                    lemma_first_entry_unique(
                        self.entries_model(),
                        keycode,
                        i as int,
                        choose|k: int| is_first_entry(self.entries_model(), keycode, k),
                    );
                }
                let text = self.entries[i].utf8.clone();
                if text.unicode_len() == 0 {
                    None
                } else {
                    Some(text)
                }
            },
            None => None,
        }
    }

    /// Whether the compose machine is mid-sequence.
    pub fn is_composing(&self) -> (r: bool)
        ensures
            r == (self.compose_model() matches Some(m) && m.status == ComposeStatus::Composing),
    {
        match &self.compose {
            Some(engine) => matches!(engine.get_status(), ComposeStatus::Composing),
            None => false,
        }
    }

    /// Whether the compose machine holds a completed sequence.
    pub fn is_composed(&self) -> (r: bool)
        ensures
            r == (self.compose_model() matches Some(m) && m.status == ComposeStatus::Composed),
    {
        match &self.compose {
            Some(engine) => matches!(engine.get_status(), ComposeStatus::Composed),
            None => false,
        }
    }

    /// Feeds one keysym to the compose machine, if one is available.
    pub fn feed_compose(&mut self, keysym: u32)
        requires
            old(self).wf(),
        ensures
            final(self).wf(),
            final(self).entries == old(self).entries,
            final(self).effective_mods() == old(self).effective_mods(),
            old(self).compose_model() is None ==> *final(self) == *old(self),
            old(self).compose_model() matches Some(m) ==> final(self).compose_model() == Some(
                feed_model(m, keysym),
            ),
    {
        match &mut self.compose {
            Some(engine) => {
                engine.feed_keysym(keysym);
            },
            None => {},
        }
    }

    /// The keysym the compose-aware lookup reports: the representative
    /// keysym of a completed sequence, and the direct keysym otherwise.
    pub open spec fn composed_or(m_opt: Option<ComposeModel>, direct: u32) -> u32 {
        match m_opt {
            Some(m) => if m.status == ComposeStatus::Composed {
                m.table[choose|i: int| is_first_exact(m.table, m.pending, i)].keysym
            } else {
                direct
            },
            None => direct,
        }
    }

    /// The keysym of a key event, compose-aware: a press feeds the direct
    /// keysym to the compose machine, and a completed sequence substitutes
    /// its representative keysym. A release never feeds the machine.
    /// The compose model after the optional feed of a key event: a press
    /// feeds the direct keysym; a release feeds nothing.
    pub open spec fn fed_compose(pre: XkbState, keycode: u32, pressed: bool) -> Option<
        ComposeModel,
    > {
        match pre.compose_model() {
            Some(m) => if pressed {
                Some(feed_model(m, spec_direct_keysym(pre.entries_model(), keycode)))
            } else {
                Some(m)
            },
            None => None,
        }
    }

    /// The text the whole press pipeline commits: a completed compose
    /// sequence commits its (nonempty) output, a sequence in progress
    /// commits nothing yet, and otherwise the keymap's direct text
    /// stands. Releases commit nothing.
    pub open spec fn expected_text(pre: XkbState, keycode: u32, pressed: bool) -> Option<
        Seq<char>,
    > {
        if !pressed {
            None
        } else {
            match Self::fed_compose(pre, keycode, true) {
                Some(m2) => if m2.status == ComposeStatus::Composed {
                    let text = m2.table[choose|i: int|
                        is_first_exact(m2.table, m2.pending, i)].utf8;
                    if text.len() == 0 {
                        None
                    } else {
                        Some(text)
                    }
                } else if m2.status == ComposeStatus::Composing {
                    None
                } else {
                    spec_direct_text(pre.entries_model(), keycode)
                },
                None => spec_direct_text(pre.entries_model(), keycode),
            }
        }
    }

    /// The compose model after the whole pipeline: consuming a completed
    /// nonempty output resets the machine; everything else leaves the fed
    /// state standing.
    pub open spec fn final_compose(pre: XkbState, keycode: u32, pressed: bool) -> Option<
        ComposeModel,
    > {
        match Self::fed_compose(pre, keycode, pressed) {
            Some(m2) => if pressed && m2.status == ComposeStatus::Composed && m2.table[choose|
                i: int,
            | is_first_exact(m2.table, m2.pending, i)].utf8.len() > 0 {
                Some(reset_model(m2))
            } else {
                Some(m2)
            },
            None => None,
        }
    }

    pub fn get_keysym_compose_aware(&mut self, keycode: u32, element_state: ElementState) -> (r:
        u32)
        requires
            old(self).wf(),
        ensures
            final(self).wf(),
            final(self).entries == old(self).entries,
            final(self).effective_mods() == old(self).effective_mods(),
            element_state == ElementState::Released ==> *final(self) == *old(self),
            final(self).compose_model() == Self::fed_compose(
                *old(self),
                keycode,
                element_state == ElementState::Pressed,
            ),
            r == Self::composed_or(
                Self::fed_compose(*old(self), keycode, element_state == ElementState::Pressed),
                spec_direct_keysym(old(self).entries_model(), keycode),
            ),
    {
        let keysym = self.get_keysym(keycode);
        if matches!(element_state, ElementState::Pressed) {
            self.feed_compose(keysym);
        }
        if self.is_composed() {
            match &self.compose {
                Some(engine) => engine.get_keysym(),
                None => keysym,
            }
        } else {
            keysym
        }
    }

    /// The text one consuming read commits, from the machine as it
    /// stands: a completed sequence's nonempty output, nothing while a
    /// sequence is in progress, and the keymap's direct text otherwise.
    pub open spec fn consume_text(pre: XkbState, keycode: u32) -> Option<Seq<char>> {
        match pre.compose_model() {
            Some(m) => if m.status == ComposeStatus::Composed {
                let text = m.table[choose|i: int| is_first_exact(m.table, m.pending, i)].utf8;
                if text.len() == 0 {
                    None
                } else {
                    Some(text)
                }
            } else if m.status == ComposeStatus::Composing {
                None
            } else {
                spec_direct_text(pre.entries_model(), keycode)
            },
            None => spec_direct_text(pre.entries_model(), keycode),
        }
    }

    /// The compose model after one consuming read: consuming a completed
    /// nonempty output resets the machine, everything else leaves it as
    /// it stands.
    pub open spec fn consumed_compose(pre: XkbState) -> Option<ComposeModel> {
        match pre.compose_model() {
            Some(m) => if m.status == ComposeStatus::Composed && m.table[choose|i: int|
                is_first_exact(m.table, m.pending, i)].utf8.len() > 0 {
                Some(reset_model(m))
            } else {
                Some(m)
            },
            None => None,
        }
    }

    /// The text a key event commits, following the press pipeline: a
    /// completed compose sequence commits its output exactly once and
    /// resets the machine; a sequence in progress commits nothing; an
    /// ordinary press commits the keymap's direct text. Releases commit
    /// nothing.
    pub fn get_utf8(&mut self, keycode: u32, element_state: ElementState) -> (r: Option<String>)
        requires
            old(self).wf(),
        ensures
            final(self).wf(),
            final(self).entries == old(self).entries,
            final(self).effective_mods() == old(self).effective_mods(),
            element_state == ElementState::Released ==> r is None && *final(self) == *old(self),
            element_state == ElementState::Pressed ==> opt_text_matches(
                r,
                Self::consume_text(*old(self), keycode),
            ) && final(self).compose_model() == Self::consumed_compose(*old(self)),
            element_state == ElementState::Pressed && final(self).compose_model() == old(
                self,
            ).compose_model() ==> *final(self) == *old(self),
    {
        if matches!(element_state, ElementState::Pressed) {
            if self.is_composed() {
                match &mut self.compose {
                    Some(engine) => engine.get_utf8(),
                    None => None,
                }
            } else if self.is_composing() {
                None
            } else {
                self.get_utf8_direct(keycode)
            }
        } else {
            None
        }
    }
}

/// The keysym-to-portable-key translation for the common keysyms: Latin
/// letters and digits (upper and lower case map to one key), the editing
/// and navigation keys, and the modifier keys themselves.
pub open spec fn spec_virtual_key_from_keysym(keysym: u32) -> Option<VirtualKeyCode> {
    if 0x30 <= keysym <= 0x39 {
        Some(
            match keysym {
                0x30u32 => VirtualKeyCode::Key0,
                0x31u32 => VirtualKeyCode::Key1,
                0x32u32 => VirtualKeyCode::Key2,
                0x33u32 => VirtualKeyCode::Key3,
                0x34u32 => VirtualKeyCode::Key4,
                0x35u32 => VirtualKeyCode::Key5,
                0x36u32 => VirtualKeyCode::Key6,
                0x37u32 => VirtualKeyCode::Key7,
                0x38u32 => VirtualKeyCode::Key8,
                _ => VirtualKeyCode::Key9,
            },
        )
    } else if 0x41 <= keysym <= 0x5a {
        spec_letter_key((keysym - 0x41) as u32)
    } else if 0x61 <= keysym <= 0x7a {
        spec_letter_key((keysym - 0x61) as u32)
    } else {
        match keysym {
            0x20u32 => Some(VirtualKeyCode::Space),
            0xff1bu32 => Some(VirtualKeyCode::Escape),
            0xff0du32 => Some(VirtualKeyCode::Return),
            0xff08u32 => Some(VirtualKeyCode::Back),
            0xff09u32 => Some(VirtualKeyCode::Tab),
            0xffffu32 => Some(VirtualKeyCode::Delete),
            0xff50u32 => Some(VirtualKeyCode::Home),
            0xff51u32 => Some(VirtualKeyCode::Left),
            0xff52u32 => Some(VirtualKeyCode::Up),
            0xff53u32 => Some(VirtualKeyCode::Right),
            0xff54u32 => Some(VirtualKeyCode::Down),
            0xff55u32 => Some(VirtualKeyCode::PageUp),
            0xff56u32 => Some(VirtualKeyCode::PageDown),
            0xff57u32 => Some(VirtualKeyCode::End),
            0xffe1u32 => Some(VirtualKeyCode::LShift),
            0xffe2u32 => Some(VirtualKeyCode::RShift),
            0xffe3u32 => Some(VirtualKeyCode::LControl),
            0xffe4u32 => Some(VirtualKeyCode::RControl),
            0xffe9u32 => Some(VirtualKeyCode::LAlt),
            0xffeau32 => Some(VirtualKeyCode::RAlt),
            0xffebu32 => Some(VirtualKeyCode::LWin),
            0xffecu32 => Some(VirtualKeyCode::RWin),
            _ => None,
        }
    }
}

/// The letter key at alphabet position `i` (0 is A).
pub open spec fn spec_letter_key(i: u32) -> Option<VirtualKeyCode> {
    match i {
        0u32 => Some(VirtualKeyCode::A),
        1u32 => Some(VirtualKeyCode::B),
        2u32 => Some(VirtualKeyCode::C),
        3u32 => Some(VirtualKeyCode::D),
        4u32 => Some(VirtualKeyCode::E),
        5u32 => Some(VirtualKeyCode::F),
        6u32 => Some(VirtualKeyCode::G),
        7u32 => Some(VirtualKeyCode::H),
        8u32 => Some(VirtualKeyCode::I),
        9u32 => Some(VirtualKeyCode::J),
        10u32 => Some(VirtualKeyCode::K),
        11u32 => Some(VirtualKeyCode::L),
        12u32 => Some(VirtualKeyCode::M),
        13u32 => Some(VirtualKeyCode::N),
        14u32 => Some(VirtualKeyCode::O),
        15u32 => Some(VirtualKeyCode::P),
        16u32 => Some(VirtualKeyCode::Q),
        17u32 => Some(VirtualKeyCode::R),
        18u32 => Some(VirtualKeyCode::S),
        19u32 => Some(VirtualKeyCode::T),
        20u32 => Some(VirtualKeyCode::U),
        21u32 => Some(VirtualKeyCode::V),
        22u32 => Some(VirtualKeyCode::W),
        23u32 => Some(VirtualKeyCode::X),
        24u32 => Some(VirtualKeyCode::Y),
        25u32 => Some(VirtualKeyCode::Z),
        _ => None,
    }
}

/// Maps a keysym to the portable key it stands for, or `None` for keysyms
/// outside the portable set.
pub fn virtual_key_from_keysym(keysym: u32) -> (r: Option<VirtualKeyCode>)
    ensures
        r == spec_virtual_key_from_keysym(keysym),
{
    if 0x30 <= keysym && keysym <= 0x39 {
        Some(
            match keysym {
                0x30 => VirtualKeyCode::Key0,
                0x31 => VirtualKeyCode::Key1,
                0x32 => VirtualKeyCode::Key2,
                0x33 => VirtualKeyCode::Key3,
                0x34 => VirtualKeyCode::Key4,
                0x35 => VirtualKeyCode::Key5,
                0x36 => VirtualKeyCode::Key6,
                0x37 => VirtualKeyCode::Key7,
                0x38 => VirtualKeyCode::Key8,
                _ => VirtualKeyCode::Key9,
            },
        )
    } else if 0x41 <= keysym && keysym <= 0x5a {
        letter_key(keysym - 0x41)
    } else if 0x61 <= keysym && keysym <= 0x7a {
        letter_key(keysym - 0x61)
    } else {
        match keysym {
            0x20 => Some(VirtualKeyCode::Space),
            0xff1b => Some(VirtualKeyCode::Escape),
            0xff0d => Some(VirtualKeyCode::Return),
            0xff08 => Some(VirtualKeyCode::Back),
            0xff09 => Some(VirtualKeyCode::Tab),
            0xffff => Some(VirtualKeyCode::Delete),
            0xff50 => Some(VirtualKeyCode::Home),
            0xff51 => Some(VirtualKeyCode::Left),
            0xff52 => Some(VirtualKeyCode::Up),
            0xff53 => Some(VirtualKeyCode::Right),
            0xff54 => Some(VirtualKeyCode::Down),
            0xff55 => Some(VirtualKeyCode::PageUp),
            0xff56 => Some(VirtualKeyCode::PageDown),
            0xff57 => Some(VirtualKeyCode::End),
            0xffe1 => Some(VirtualKeyCode::LShift),
            0xffe2 => Some(VirtualKeyCode::RShift),
            0xffe3 => Some(VirtualKeyCode::LControl),
            0xffe4 => Some(VirtualKeyCode::RControl),
            0xffe9 => Some(VirtualKeyCode::LAlt),
            0xffea => Some(VirtualKeyCode::RAlt),
            0xffeb => Some(VirtualKeyCode::LWin),
            0xffec => Some(VirtualKeyCode::RWin),
            _ => None,
        }
    }
}

/// The letter key at alphabet position `i` (0 is A), as executable code.
fn letter_key(i: u32) -> (r: Option<VirtualKeyCode>)
    ensures
        r == spec_letter_key(i),
{
    match i {
        0 => Some(VirtualKeyCode::A),
        1 => Some(VirtualKeyCode::B),
        2 => Some(VirtualKeyCode::C),
        3 => Some(VirtualKeyCode::D),
        4 => Some(VirtualKeyCode::E),
        5 => Some(VirtualKeyCode::F),
        6 => Some(VirtualKeyCode::G),
        7 => Some(VirtualKeyCode::H),
        8 => Some(VirtualKeyCode::I),
        9 => Some(VirtualKeyCode::J),
        10 => Some(VirtualKeyCode::K),
        11 => Some(VirtualKeyCode::L),
        12 => Some(VirtualKeyCode::M),
        13 => Some(VirtualKeyCode::N),
        14 => Some(VirtualKeyCode::O),
        15 => Some(VirtualKeyCode::P),
        16 => Some(VirtualKeyCode::Q),
        17 => Some(VirtualKeyCode::R),
        18 => Some(VirtualKeyCode::S),
        19 => Some(VirtualKeyCode::T),
        20 => Some(VirtualKeyCode::U),
        21 => Some(VirtualKeyCode::V),
        22 => Some(VirtualKeyCode::W),
        23 => Some(VirtualKeyCode::X),
        24 => Some(VirtualKeyCode::Y),
        25 => Some(VirtualKeyCode::Z),
        _ => None,
    }
}

/// The data of one key event after the full pipeline.
#[derive(Debug, Clone, PartialEq, Eq)]
pub struct KeyEventData {
    pub scancode: u32,
    pub virtual_keycode: Option<VirtualKeyCode>,
    pub modifiers: ModifiersState,
    pub utf8: Option<String>,
}

/// The per-device keyboard tracker: one `XkbState` per device, created on
/// the device's first event and updated on every state notification.
pub struct Xkb {
    pub keyboards: Vec<(i32, XkbState)>,
}

impl Xkb {
    /// No device is tracked twice, and every tracked state is well
    /// formed.
    pub open spec fn wf(&self) -> bool {
        &&& (forall|i: int, j: int|
            0 <= i < j < self.keyboards@.len() ==> (#[trigger] self.keyboards@[i]).0 != (
            #[trigger] self.keyboards@[j]).0)
        &&& (forall|i: int|
            0 <= i < self.keyboards@.len() ==> (#[trigger] self.keyboards@[i]).1.wf())
    }

    /// Whether `device_id` is tracked.
    pub open spec fn has_device(&self, device_id: i32) -> bool {
        exists|i: int| 0 <= i < self.keyboards@.len() && (#[trigger] self.keyboards@[i]).0 == device_id
    }

    /// The position of `device_id` in the tracker.
    pub open spec fn device_index(&self, device_id: i32) -> int {
        choose|i: int|
            0 <= i < self.keyboards@.len() && (#[trigger] self.keyboards@[i]).0 == device_id
    }

    /// The tracked state of `device_id`.
    pub open spec fn device_state(&self, device_id: i32) -> XkbState {
        self.keyboards@[self.device_index(device_id)].1
    }

    /// A tracker with no devices.
    pub fn new() -> (r: Self)
        ensures
            r.wf(),
            r.keyboards@.len() == 0,
    {
        Xkb { keyboards: Vec::new() }
    }

    /// Position of `device_id`, if tracked.
    fn find_device(&self, device_id: i32) -> (r: Option<usize>)
        requires
            self.wf(),
        ensures
            r matches Some(i) ==> i < self.keyboards@.len() && self.keyboards@[i as int].0
                == device_id && self.device_index(device_id) == i && self.has_device(device_id),
            r is None ==> !self.has_device(device_id),
    {
        let n = self.keyboards.len();
        let mut i: usize = 0;
        while i < n
            invariant
                i <= n,
                n == self.keyboards@.len(),
                self.wf(),
                forall|j: int| 0 <= j < i ==> (#[trigger] self.keyboards@[j]).0 != device_id,
            decreases n - i,
        {
            if self.keyboards[i].0 == device_id {
                proof {
                    assert(self.keyboards@[i as int].0 == device_id);
                    let k = self.device_index(device_id);
                    if k != i as int {
                        if k < i as int {
                            assert(self.keyboards@[k].0 != device_id);
                        } else {
                            assert(self.keyboards@[i as int].0 != self.keyboards@[k].0);
                        }
                    }
                }
                return Some(i);
            }
            i = i + 1;
        }
        None
    }

    /// Starts tracking `device_id` with the given compiled state. A device
    /// already tracked keeps its position and gets the fresh state; other
    /// devices are untouched.
    pub fn add_keyboard(&mut self, device_id: i32, state: XkbState)
        requires
            old(self).wf(),
            state.wf(),
        ensures
            final(self).wf(),
            final(self).has_device(device_id),
            final(self).device_state(device_id) == state,
            forall|j: int|
                0 <= j < old(self).keyboards@.len() && (#[trigger] old(self).keyboards@[j]).0
                    != device_id ==> final(self).keyboards@[j] == old(self).keyboards@[j],
    {
        let found = self.find_device(device_id);
        match found {
            Some(i) => {
                self.keyboards[i] = (device_id, state);
                proof {
                    assert(self.keyboards@[i as int].0 == device_id);
                    assert forall|a: int, b: int|
                        0 <= a < b < self.keyboards@.len() implies (#[trigger] self.keyboards@[a]).0
                        != (#[trigger] self.keyboards@[b]).0 by {
                        assert(old(self).keyboards@[a].0 != old(self).keyboards@[b].0);
                    }
                    let k = self.device_index(device_id);
                    if k != i as int {
                        assert(self.keyboards@[k].0 == device_id);
                        assert(old(self).keyboards@[k].0 == device_id);
                        assert(old(self).device_index(device_id) == i as int);
                    }
                }
            },
            None => {
                self.keyboards.push((device_id, state));
                proof {
                    let n = old(self).keyboards@.len();
                    assert(self.keyboards@[n as int].0 == device_id);
                    assert forall|a: int, b: int|
                        0 <= a < b < self.keyboards@.len() implies (#[trigger] self.keyboards@[a]).0
                        != (#[trigger] self.keyboards@[b]).0 by {
                        if b == n as int {
                            assert(old(self).keyboards@[a].0 != device_id);
                        } else {
                            assert(old(self).keyboards@[a].0 != old(self).keyboards@[b].0);
                        }
                    }
                    let k = self.device_index(device_id);
                    if k != n as int {
                        assert(self.keyboards@[k].0 == device_id);
                        assert(old(self).keyboards@[k].0 == device_id);
                    }
                }
            },
        }
    }

    /// The keysym `keycode` produces on `device_id`, or `None` for an
    /// untracked device.
    pub fn get_keysym(&self, device_id: i32, keycode: i32) -> (r: Option<u32>)
        requires
            self.wf(),
            8 <= keycode <= 255,
        ensures
            !self.has_device(device_id) ==> r is None,
            self.has_device(device_id) ==> r == Some(
                spec_direct_keysym(self.device_state(device_id).entries_model(), keycode as u32),
            ),
    {
        let code = xkb_keycode_from_x11_keycode(keycode);
        let found = self.find_device(device_id);
        match found {
            Some(i) => Some(self.keyboards[i].1.get_keysym(code)),
            None => None,
        }
    }

    /// The modifier snapshot of `device_id`, or `None` for an untracked
    /// device.
    pub fn get_modifiers(&self, device_id: i32) -> (r: Option<ModifiersState>)
        requires
            self.wf(),
        ensures
            !self.has_device(device_id) ==> r is None,
            self.has_device(device_id) ==> r == Some(
                spec_modifiers_from_mask(self.device_state(device_id).effective_mods()),
            ),
    {
        let found = self.find_device(device_id);
        match found {
            Some(i) => Some(self.keyboards[i].1.get_modifiers()),
            None => None,
        }
    }

    /// Installs a state-change notification for `device_id`: the device's
    /// modifier and layout components are replaced, its keymap and compose
    /// machine stay, and other devices are untouched. Notifications for
    /// unknown devices are ignored.
    pub fn update(
        &mut self,
        device_id: i32,
        depressed_mods: u32,
        latched_mods: u32,
        locked_mods: u32,
        depressed_layout: u32,
        latched_layout: u32,
        locked_layout: u32,
    )
        requires
            old(self).wf(),
        ensures
            final(self).wf(),
            !old(self).has_device(device_id) ==> *final(self) == *old(self),
            old(self).has_device(device_id) ==> {
                let st = old(self).device_state(device_id);
                &&& final(self).keyboards@.len() == old(self).keyboards@.len()
                &&& final(self).device_state(device_id) == (XkbState {
                    entries: st.entries,
                    depressed_mods,
                    latched_mods,
                    locked_mods,
                    depressed_layout,
                    latched_layout,
                    locked_layout,
                    compose: st.compose,
                })
                &&& (forall|j: int|
                    0 <= j < old(self).keyboards@.len() && j != old(self).device_index(device_id)
                        ==> #[trigger] final(self).keyboards@[j] == old(self).keyboards@[j])
            },
    {
        let found = self.find_device(device_id);
        match found {
            Some(i) => {
                let entry = &mut self.keyboards[i];
                entry.1.update(
                    depressed_mods,
                    latched_mods,
                    locked_mods,
                    depressed_layout,
                    latched_layout,
                    locked_layout,
                );
                proof {
                    assert forall|a: int, b: int|
                        0 <= a < b < self.keyboards@.len() implies (#[trigger] self.keyboards@[a]).0
                        != (#[trigger] self.keyboards@[b]).0 by {
                        assert(old(self).keyboards@[a].0 != old(self).keyboards@[b].0);
                    }
                    assert forall|a: int|
                        0 <= a < self.keyboards@.len() implies (#[trigger] self.keyboards@[a]).1.wf()
                        by {
                        assert(old(self).keyboards@[a].1.wf());
                        if a == i as int {
                            assert(self.keyboards@[a].1.compose == old(self).keyboards@[a].1.compose);
                        } else {
                            assert(self.keyboards@[a] == old(self).keyboards@[a]);
                        }
                    }
                    assert(self.keyboards@[i as int].0 == device_id);
                    let k = self.device_index(device_id);
                    if k != i as int {
                        assert(self.keyboards@[k].0 == device_id);
                        assert(old(self).keyboards@[k].0 == device_id);
                        assert(old(self).device_index(device_id) == i as int);
                    }
                }
            },
            None => {},
        }
    }

    /// The full pipeline of one key event on `device_id`: the hardware
    /// scancode, the portable key derived from the compose-aware keysym,
    /// the modifier snapshot, and the committed text. A press routes the
    /// keysym through the compose machine — unless `bypass_compose` asks
    /// for a raw query, which must not perturb compose state; a release
    /// never feeds it. Unknown devices yield `None`.
    pub fn get_event_data(
        &mut self,
        device_id: i32,
        keycode: i32,
        element_state: ElementState,
        bypass_compose: bool,
    ) -> (r: Option<KeyEventData>)
        requires
            old(self).wf(),
            8 <= keycode <= 255,
        ensures
            final(self).wf(),
            !old(self).has_device(device_id) ==> r is None && *final(self) == *old(self),
            bypass_compose ==> *final(self) == *old(self),
            old(self).has_device(device_id) ==> (r matches Some(data) && ({
                let st = old(self).device_state(device_id);
                let code = keycode as u32;
                let pressed = element_state == ElementState::Pressed;
                &&& data.scancode == keycode - 8
                &&& data.modifiers == spec_modifiers_from_mask(st.effective_mods())
                &&& (bypass_compose ==> data.virtual_keycode == spec_virtual_key_from_keysym(
                    spec_direct_keysym(st.entries_model(), code),
                ) && opt_text_matches(data.utf8, spec_direct_text(st.entries_model(), code)))
                &&& (!bypass_compose ==> {
                    &&& data.virtual_keycode == spec_virtual_key_from_keysym(
                        XkbState::composed_or(
                            XkbState::fed_compose(st, code, pressed),
                            spec_direct_keysym(st.entries_model(), code),
                        ),
                    )
                    &&& opt_text_matches(data.utf8, XkbState::expected_text(st, code, pressed))
                    &&& final(self).keyboards@.len() == old(self).keyboards@.len()
                    &&& final(self).device_state(device_id).entries == st.entries
                    &&& final(self).device_state(device_id).effective_mods()
                        == st.effective_mods()
                    &&& final(self).device_state(device_id).compose_model()
                        == XkbState::final_compose(st, code, pressed)
                    &&& (forall|j: int|
                        0 <= j < old(self).keyboards@.len() && j != old(self).device_index(
                            device_id,
                        ) ==> #[trigger] final(self).keyboards@[j] == old(self).keyboards@[j])
                })
            })),
    {
        let code = xkb_keycode_from_x11_keycode(keycode);
        let scancode = (keycode - 8) as u32;
        let found = self.find_device(device_id);
        match found {
            Some(i) => {
                if bypass_compose {
                    let state = &self.keyboards[i].1;
                    let keysym = state.get_keysym(code);
                    let virtual_keycode = virtual_key_from_keysym(keysym);
                    let modifiers = state.get_modifiers();
                    let utf8 = state.get_utf8_direct(code);
                    Some(KeyEventData { scancode, virtual_keycode, modifiers, utf8 })
                } else {
                    let ghost st = old(self).keyboards@[i as int].1;
                    let pressed = matches!(element_state, ElementState::Pressed);
                    let entry = &mut self.keyboards[i];
                    let keysym = entry.1.get_keysym_compose_aware(code, element_state);
                    let ghost mid = entry.1;
                    let virtual_keycode = virtual_key_from_keysym(keysym);
                    let modifiers = entry.1.get_modifiers();
                    let utf8 = entry.1.get_utf8(code, element_state);
                    proof {
                        assert(mid.entries_model() == st.entries_model());
                        if pressed {
                            assert(XkbState::consume_text(mid, code) == XkbState::expected_text(
                                st,
                                code,
                                true,
                            ));
                        }
                        assert forall|a: int, b: int|
                            0 <= a < b < self.keyboards@.len() implies (
                        #[trigger] self.keyboards@[a]).0 != (#[trigger] self.keyboards@[b]).0 by {
                            assert(old(self).keyboards@[a].0 != old(self).keyboards@[b].0);
                        }
                        assert forall|a: int|
                            0 <= a < self.keyboards@.len() implies (
                        #[trigger] self.keyboards@[a]).1.wf() by {
                            if a != i as int {
                                assert(self.keyboards@[a] == old(self).keyboards@[a]);
                                assert(old(self).keyboards@[a].1.wf());
                            }
                        }
                        assert(self.keyboards@[i as int].0 == device_id);
                        let k = self.device_index(device_id);
                        if k != i as int {
                            assert(self.keyboards@[k].0 == device_id);
                            assert(old(self).keyboards@[k].0 == device_id);
                            assert(old(self).device_index(device_id) == i as int);
                        }
                    }
                    Some(KeyEventData { scancode, virtual_keycode, modifiers, utf8 })
                }
            },
            None => None,
        }
    }
}

} // verus!
