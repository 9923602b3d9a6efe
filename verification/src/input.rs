//! Mouse buttons as remote clients name them, and their platform codes.

use vstd::prelude::*;

verus! {

/// A mouse button.
#[derive(Debug, Clone, Copy, PartialEq, Eq, Structural)]
pub enum MouseButton {
    Left,
    Right,
    Middle,
    Back,
    Forward,
    Task,
    Extra(u16),
}

/// The Linux input event code of a button (`BTN_LEFT` and the following
/// codes; an extra button carries its own code).
pub open spec fn linux_code(b: MouseButton) -> i32 {
    match b {
        MouseButton::Left => 0x110,
        MouseButton::Right => 0x111,
        MouseButton::Middle => 0x112,
        MouseButton::Back => 0x113,
        MouseButton::Forward => 0x114,
        MouseButton::Task => 0x117,
        MouseButton::Extra(c) => c as i32,
    }
}

/// The Linux input event code of a button.
pub fn mouse_button_to_linux_code(button: &MouseButton) -> (r: i32)
    ensures
        r == linux_code(*button),
{
    match button {
        MouseButton::Left => 0x110,
        MouseButton::Right => 0x111,
        MouseButton::Middle => 0x112,
        MouseButton::Back => 0x113,
        MouseButton::Forward => 0x114,
        MouseButton::Task => 0x117,
        MouseButton::Extra(c) => *c as i32,
    }
}

/// The Win32 `SendInput` mouse flags and data word for pressing
/// (`pressed`) or releasing a button: the left, right and middle button
/// flags, or an X-button event whose data word names the button (1 for
/// back, 2 for forward and task, the code of an extra button).
pub open spec fn win32_button_event(b: MouseButton, pressed: bool) -> (u32, u32) {
    match b {
        MouseButton::Left => (if pressed { 0x0002u32 } else { 0x0004u32 }, 0u32),
        MouseButton::Right => (if pressed { 0x0008u32 } else { 0x0010u32 }, 0u32),
        MouseButton::Middle => (if pressed { 0x0020u32 } else { 0x0040u32 }, 0u32),
        MouseButton::Back => (if pressed { 0x0080u32 } else { 0x0100u32 }, 1u32),
        MouseButton::Forward | MouseButton::Task => (if pressed { 0x0080u32 } else { 0x0100u32 }, 2u32),
        MouseButton::Extra(c) => (if pressed { 0x0080u32 } else { 0x0100u32 }, c as u32),
    }
}

/// The Win32 mouse flags and data word for pressing or releasing a button.
pub fn mouse_button_to_win32_event(button: &MouseButton, pressed: bool) -> (r: (u32, u32))
    ensures
        r == win32_button_event(*button, pressed),
{
    let (down, up): (u32, u32) = match button {
        MouseButton::Left => (0x0002, 0x0004),
        MouseButton::Right => (0x0008, 0x0010),
        MouseButton::Middle => (0x0020, 0x0040),
        _ => (0x0080, 0x0100),
    };
    let data: u32 = match button {
        MouseButton::Back => 1,
        MouseButton::Forward | MouseButton::Task => 2,
        MouseButton::Extra(c) => *c as u32,
        _ => 0,
    };
    (if pressed { down } else { up }, data)
}

/// A button action that a client asks for.
#[derive(Debug, Clone, Copy, PartialEq, Eq, Structural)]
pub enum ButtonAction {
    Down,
    Up,
    Click,
    DoubleClick,
}

/// One step of injecting a button action through Win32 `SendInput`.
#[derive(Debug, Clone, Copy, PartialEq, Eq, Structural)]
pub enum Win32MouseStep {
    /// Send one mouse event with these flags and data word.
    Send { flags: u32, data: u32 },
    /// Wait this many milliseconds.
    Pause { millis: u32 },
}

/// The event that presses or releases `b`.
pub open spec fn button_step(b: MouseButton, pressed: bool) -> Win32MouseStep {
    Win32MouseStep::Send { flags: win32_button_event(b, pressed).0, data: win32_button_event(b, pressed).1 }
}

/// The steps of a button action: a press or a release is one event; a
/// click presses, waits 10 ms and releases; a double click clicks, waits
/// 50 ms and clicks again.
pub open spec fn button_plan(b: MouseButton, action: ButtonAction) -> Seq<Win32MouseStep> {
    let click = seq![button_step(b, true), Win32MouseStep::Pause { millis: 10 }, button_step(b, false)];
    match action {
        ButtonAction::Down => seq![button_step(b, true)],
        ButtonAction::Up => seq![button_step(b, false)],
        ButtonAction::Click => click,
        ButtonAction::DoubleClick => click + seq![Win32MouseStep::Pause { millis: 50 }] + click,
    }
}

fn push_button_event(steps: &mut Vec<Win32MouseStep>, button: &MouseButton, pressed: bool)
    ensures
        final(steps)@ == old(steps)@.push(button_step(*button, pressed)),
{
    let (flags, data) = mouse_button_to_win32_event(button, pressed);
    steps.push(Win32MouseStep::Send { flags, data });
}

/// The Win32 steps that carry out a button action.
pub fn mouse_button_plan(button: &MouseButton, action: ButtonAction) -> (r: Vec<Win32MouseStep>)
    ensures
        r@ == button_plan(*button, action),
{
    let mut steps: Vec<Win32MouseStep> = Vec::new();
    match action {
        ButtonAction::Down => push_button_event(&mut steps, button, true),
        ButtonAction::Up => push_button_event(&mut steps, button, false),
        ButtonAction::Click => {
            push_button_event(&mut steps, button, true);
            steps.push(Win32MouseStep::Pause { millis: 10 });
            push_button_event(&mut steps, button, false);
        },
        ButtonAction::DoubleClick => {
            push_button_event(&mut steps, button, true);
            steps.push(Win32MouseStep::Pause { millis: 10 });
            push_button_event(&mut steps, button, false);
            steps.push(Win32MouseStep::Pause { millis: 50 });
            push_button_event(&mut steps, button, true);
            steps.push(Win32MouseStep::Pause { millis: 10 });
            push_button_event(&mut steps, button, false);
        },
    }
    assert(steps@ =~= button_plan(*button, action));
    steps
}

/// Every button action but a bare press ends with the button released.
pub proof fn law_button_plan_ends_released(b: MouseButton, action: ButtonAction)
    requires
        action != ButtonAction::Down,
    ensures
        button_plan(b, action).last() == button_step(b, false),
{
}

} // verus!
