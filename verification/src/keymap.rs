//! The key dispatch table: which key, under which modifiers, maps to
//! which engine command or local scroll step.

use vstd::prelude::*;

use crate::edit_view::LINE_SPACE;

verus! {

/// Modifier bit for the Alt key.
pub const M_ALT: u32 = 1;

/// Modifier bit for the Ctrl key.
pub const M_CTRL: u32 = 2;

/// Modifier bit for the Shift key.
pub const M_SHIFT: u32 = 4;

/// Key code for Enter.
pub const VK_RETURN: i32 = 0x0D;

/// Key code for Tab.
pub const VK_TAB: i32 = 0x09;

/// Key code for the up arrow.
pub const VK_UP: i32 = 0x26;

/// Key code for the down arrow.
pub const VK_DOWN: i32 = 0x28;

/// Key code for the left arrow.
pub const VK_LEFT: i32 = 0x25;

/// Key code for the right arrow.
pub const VK_RIGHT: i32 = 0x27;

/// Key code for Page Up.
pub const VK_PRIOR: i32 = 0x21;

/// Key code for Page Down.
pub const VK_NEXT: i32 = 0x22;

/// Key code for Home.
pub const VK_HOME: i32 = 0x24;

/// Key code for End.
pub const VK_END: i32 = 0x23;

/// Key code for Escape.
pub const VK_ESCAPE: i32 = 0x1B;

/// Key code for Backspace.
pub const VK_BACK: i32 = 0x08;

/// Key code for Delete.
pub const VK_DELETE: i32 = 0x2E;

/// Key code for the `[` key on a US layout.
pub const VK_OEM_4: i32 = 0xDB;

/// Key code for the `]` key on a US layout.
pub const VK_OEM_6: i32 = 0xDD;

/// What a key event maps to: nothing (the platform may route it
/// elsewhere), one engine command, or a local scroll step of the given
/// number of pixels.
pub ghost enum KeyAction {
    Unhandled,
    Command(Seq<char>),
    ScrollBy(int),
}

/// The shifted variant when Shift is held, the normal one otherwise.
pub open spec fn shifted_spec(mods: u32, normal: Seq<char>, shifted: Seq<char>) -> Seq<char> {
    if mods & M_SHIFT != 0 {
        shifted
    } else {
        normal
    }
}

/// Helper for choosing between the normal and the shifted action.
pub fn s<'a>(mods: u32, normal: &'a str, shifted: &'a str) -> (r: &'a str)
    ensures
        r@ == shifted_spec(mods, normal@, shifted@),
{
    if mods & M_SHIFT != 0 {
        shifted
    } else {
        normal
    }
}

/// The dispatch table: the action for one key event. Selection-modifying
/// variants are the shifted branch; Ctrl alone on the arrow keys scrolls
/// the view locally by one line instead of moving the caret.
pub open spec fn key_action(vk_code: i32, mods: u32) -> KeyAction {
    if vk_code == VK_RETURN {
        KeyAction::Command("insert_newline"@)
    } else if vk_code == VK_TAB {
        KeyAction::Command("insert_tab"@)
    } else if vk_code == VK_UP {
        if mods == M_CTRL {
            KeyAction::ScrollBy(-(LINE_SPACE as int))
        } else if mods == M_CTRL | M_ALT {
            KeyAction::Command("add_selection_above"@)
        } else {
            KeyAction::Command(shifted_spec(mods, "move_up"@, "move_up_and_modify_selection"@))
        }
    } else if vk_code == VK_DOWN {
        if mods == M_CTRL {
            KeyAction::ScrollBy(LINE_SPACE as int)
        } else if mods == M_CTRL | M_ALT {
            KeyAction::Command("add_selection_below"@)
        } else {
            KeyAction::Command(shifted_spec(mods, "move_down"@, "move_down_and_modify_selection"@))
        }
    } else if vk_code == VK_LEFT {
        if mods & (M_ALT | M_CTRL) != 0 {
            KeyAction::Command(
                shifted_spec(mods, "move_word_left"@, "move_word_left_and_modify_selection"@),
            )
        } else {
            KeyAction::Command(shifted_spec(mods, "move_left"@, "move_left_and_modify_selection"@))
        }
    } else if vk_code == VK_RIGHT {
        if mods & (M_ALT | M_CTRL) != 0 {
            KeyAction::Command(
                shifted_spec(mods, "move_word_right"@, "move_word_right_and_modify_selection"@),
            )
        } else {
            KeyAction::Command(
                shifted_spec(mods, "move_right"@, "move_right_and_modify_selection"@),
            )
        }
    } else if vk_code == VK_PRIOR {
        KeyAction::Command(shifted_spec(mods, "scroll_page_up"@, "page_up_and_modify_selection"@))
    } else if vk_code == VK_NEXT {
        KeyAction::Command(
            shifted_spec(mods, "scroll_page_down"@, "page_down_and_modify_selection"@),
        )
    } else if vk_code == VK_HOME {
        if mods & M_CTRL != 0 {
            KeyAction::Command(
                shifted_spec(
                    mods,
                    "move_to_beginning_of_document"@,
                    "move_to_beginning_of_document_and_modify_selection"@,
                ),
            )
        } else {
            KeyAction::Command(
                shifted_spec(
                    mods,
                    "move_to_left_end_of_line"@,
                    "move_to_left_end_of_line_and_modify_selection"@,
                ),
            )
        }
    } else if vk_code == VK_END {
        if mods & M_CTRL != 0 {
            KeyAction::Command(
                shifted_spec(
                    mods,
                    "move_to_end_of_document"@,
                    "move_to_end_of_document_and_modify_selection"@,
                ),
            )
        } else {
            KeyAction::Command(
                shifted_spec(
                    mods,
                    "move_to_right_end_of_line"@,
                    "move_to_right_end_of_line_and_modify_selection"@,
                ),
            )
        }
    } else if vk_code == VK_ESCAPE {
        KeyAction::Command("cancel_operation"@)
    } else if vk_code == VK_BACK {
        if mods & M_CTRL != 0 {
            KeyAction::Command(
                shifted_spec(mods, "delete_word_backward"@, "delete_to_beginning_of_line"@),
            )
        } else {
            KeyAction::Command("delete_backward"@)
        }
    } else if vk_code == VK_DELETE {
        if mods & M_CTRL != 0 {
            KeyAction::Command(
                shifted_spec(mods, "delete_word_forward"@, "delete_to_end_of_paragraph"@),
            )
        } else {
            KeyAction::Command("delete_forward"@)
        }
    } else if vk_code == VK_OEM_4 {
        if mods == M_CTRL {
            KeyAction::Command("outdent"@)
        } else {
            KeyAction::Unhandled
        }
    } else if vk_code == VK_OEM_6 {
        if mods == M_CTRL {
            KeyAction::Command("indent"@)
        } else {
            KeyAction::Unhandled
        }
    } else {
        KeyAction::Unhandled
    }
}

} // verus!
