//! DShot command processing: repeated-command confirmation, settings commands,
//! extended telemetry switching and the programming-mode byte writer.
use vstd::prelude::*;
use crate::config::{EepromConfig, EEPROM_SIZE};
use crate::dshot::commands;

verus! {

/// DShot command processor state.
#[derive(Clone, Copy, Default)]
pub struct CommandProcessor {
    pub command: u16,
    pub command_count: u8,
    pub last_command: u8,
    pub programming_mode: u8,
    pub position: u16,
    pub new_byte: u8,
    pub extended_telemetry: bool,
    pub send_edt_init: bool,
    pub send_edt_deinit: bool,
}

/// Result of processing a DShot command.
#[derive(Clone, Copy, Debug, PartialEq, Eq, Structural)]
pub enum CommandResult {
    NoAction,
    PlayTone(u8),
    SendEscInfo,
    SaveSettings,
    ProgrammingCommit { position: u16, value: u8 },
}

/// The confirmation count after this frame: restarted on a new command, forced to
/// 6 for beacons (1-5), then incremented.
pub open spec fn next_count(p: CommandProcessor, cmd: u16) -> int {
    let c0: int = if cmd != p.last_command as u16 { 0 } else { p.command_count as int };
    let c1: int = if cmd <= 5 { 6 } else { c0 };
    c1 + 1
}

/// The outcome of an accepted command, and what it changes: the settings'
/// direction and bidirectional flags, the current direction, the EDT flags and
/// the programming mode.
pub open spec fn execute_spec(p: CommandProcessor, cmd: u16, config: EepromConfig, forward: bool, edt_armed: bool, edt_arm_enable: bool)
    -> (CommandProcessor, EepromConfig, bool, bool, CommandResult) {
    if 1 <= cmd <= 5 {
        (p, config, forward, edt_armed, CommandResult::PlayTone(cmd as u8))
    } else if cmd == commands::ESC_INFO {
        (p, config, forward, edt_armed, CommandResult::SendEscInfo)
    } else if cmd == commands::DIRECTION_NORMAL {
        (p, EepromConfig { dir_reversed: 0, ..config }, true, edt_armed, CommandResult::NoAction)
    } else if cmd == commands::DIRECTION_REVERSED {
        (p, EepromConfig { dir_reversed: 1, ..config }, false, edt_armed, CommandResult::NoAction)
    } else if cmd == commands::BIDIR_OFF {
        (p, EepromConfig { bi_direction: 0, ..config }, forward, edt_armed, CommandResult::NoAction)
    } else if cmd == commands::BIDIR_ON {
        (p, EepromConfig { bi_direction: 1, ..config }, forward, edt_armed, CommandResult::NoAction)
    } else if cmd == commands::SAVE_SETTINGS {
        (p, config, forward, edt_armed, CommandResult::SaveSettings)
    } else if cmd == commands::EDT_ENABLE {
        (CommandProcessor { extended_telemetry: true, send_edt_init: true, ..p }, config, forward, edt_armed || edt_arm_enable, CommandResult::NoAction)
    } else if cmd == commands::EDT_DISABLE {
        (CommandProcessor { extended_telemetry: false, send_edt_deinit: true, ..p }, config, forward, edt_armed, CommandResult::NoAction)
    } else if cmd == commands::DIRECTION_FWD {
        (p, config, config.dir_reversed == 0, edt_armed, CommandResult::NoAction)
    } else if cmd == commands::DIRECTION_REV {
        (p, config, config.dir_reversed != 0, edt_armed, CommandResult::NoAction)
    } else if cmd == commands::PROGRAMMING_MODE {
        (CommandProcessor { programming_mode: 1, ..p }, config, forward, edt_armed, CommandResult::NoAction)
    } else {
        (p, config, forward, edt_armed, CommandResult::NoAction)
    }
}

/// A command acts only while armed and stopped, and only on its sixth consecutive
/// frame (beacons 1-5 at once); the count then restarts and the command executes.
pub open spec fn process_spec(p: CommandProcessor, cmd: u16, armed: bool, running: bool, config: EepromConfig, forward: bool, edt_armed: bool, edt_arm_enable: bool)
    -> (CommandProcessor, EepromConfig, bool, bool, CommandResult) {
    if !armed || running {
        (p, config, forward, edt_armed, CommandResult::NoAction)
    } else {
        let n = next_count(p, cmd);
        let p1 = CommandProcessor { last_command: cmd as u8, command_count: n as u8, ..p };
        if n < 6 {
            (p1, config, forward, edt_armed, CommandResult::NoAction)
        } else {
            let e = execute_spec(CommandProcessor { command_count: 0, ..p1 }, cmd, config, forward, edt_armed, edt_arm_enable);
            (CommandProcessor { last_command: cmd as u8, command: 0, ..e.0 }, e.1, e.2, e.3, e.4)
        }
    }
}

/// One programming-mode frame: the first gives the position, the second the byte,
/// and a third equal to 37 commits the byte (within the image) and leaves
/// programming mode.
pub open spec fn programming_spec(p: CommandProcessor, value: u16, config: EepromConfig) -> (CommandProcessor, Seq<u8>, Option<CommandResult>) {
    if p.programming_mode == 1 {
        (CommandProcessor { position: value, programming_mode: 2, ..p }, config.bytes_spec(), None)
    } else if p.programming_mode == 2 {
        (CommandProcessor { new_byte: value as u8, programming_mode: 3, ..p }, config.bytes_spec(), None)
    } else if p.programming_mode == 3 && value == 37 {
        (
            CommandProcessor { programming_mode: 0, ..p },
            if p.position < EEPROM_SIZE { config.bytes_spec().update(p.position as int, p.new_byte) } else { config.bytes_spec() },
            Some(CommandResult::ProgrammingCommit { position: p.position, value: p.new_byte }),
        )
    } else {
        (p, config.bytes_spec(), None)
    }
}

impl CommandProcessor {
    /// Whether extended DShot telemetry is enabled.
    pub fn extended_telemetry(&self) -> (r: bool)
        ensures
            r == self.extended_telemetry,
    {
        self.extended_telemetry
    }

    /// Take the EDT init flag: return it and clear it.
    pub fn take_edt_init(&mut self) -> (r: bool)
        ensures
            r == old(self).send_edt_init,
            *final(self) == (CommandProcessor { send_edt_init: false, ..*old(self) }),
    {
        let v = self.send_edt_init;
        self.send_edt_init = false;
        v
    }

    /// Take the EDT deinit flag: return it and clear it.
    pub fn take_edt_deinit(&mut self) -> (r: bool)
        ensures
            r == old(self).send_edt_deinit,
            *final(self) == (CommandProcessor { send_edt_deinit: false, ..*old(self) }),
    {
        let v = self.send_edt_deinit;
        self.send_edt_deinit = false;
        v
    }

    /// Process a DShot command (1-47) while armed; returns the action to take.
    #[allow(clippy::too_many_arguments)]
    pub fn process(
        &mut self,
        cmd: u16,
        armed: bool,
        running: bool,
        config: &mut EepromConfig,
        forward: &mut bool,
        edt_armed: &mut bool,
        edt_arm_enable: bool,
    ) -> (r: CommandResult)
        requires
            armed && !running ==> next_count(*old(self), cmd) <= u8::MAX,
        ensures
            (*final(self), *final(config), *final(forward), *final(edt_armed), r)
                == process_spec(*old(self), cmd, armed, running, *old(config), *old(forward), *old(edt_armed), edt_arm_enable),
    {
        if !armed || running {
            return CommandResult::NoAction;
        }
        if cmd != self.last_command as u16 {
            self.last_command = cmd as u8;
            self.command_count = 0;
        }
        if cmd <= 5 {
            self.command_count = 6;
        }
        self.command_count += 1;
        if self.command_count < 6 {
            return CommandResult::NoAction;
        }
        self.command_count = 0;
        let result = if 1 <= cmd && cmd <= 5 {
            CommandResult::PlayTone(cmd as u8)
        } else if cmd == commands::ESC_INFO {
            CommandResult::SendEscInfo
        } else if cmd == commands::DIRECTION_NORMAL {
            config.dir_reversed = 0;
            *forward = true;
            CommandResult::NoAction
        } else if cmd == commands::DIRECTION_REVERSED {
            config.dir_reversed = 1;
            *forward = false;
            CommandResult::NoAction
        } else if cmd == commands::BIDIR_OFF {
            config.bi_direction = 0;
            CommandResult::NoAction
        } else if cmd == commands::BIDIR_ON {
            config.bi_direction = 1;
            CommandResult::NoAction
        } else if cmd == commands::SAVE_SETTINGS {
            CommandResult::SaveSettings
        } else if cmd == commands::EDT_ENABLE {
            self.extended_telemetry = true;
            self.send_edt_init = true;
            if edt_arm_enable {
                *edt_armed = true;
            }
            CommandResult::NoAction
        } else if cmd == commands::EDT_DISABLE {
            self.extended_telemetry = false;
            self.send_edt_deinit = true;
            CommandResult::NoAction
        } else if cmd == commands::DIRECTION_FWD {
            *forward = config.dir_reversed == 0;
            CommandResult::NoAction
        } else if cmd == commands::DIRECTION_REV {
            *forward = config.dir_reversed != 0;
            CommandResult::NoAction
        } else if cmd == commands::PROGRAMMING_MODE {
            self.programming_mode = 1;
            CommandResult::NoAction
        } else {
            CommandResult::NoAction
        };
        self.last_command = cmd as u8;
        self.command = 0;
        result
    }

    /// Process a frame in programming mode; returns the commit when one happens.
    pub fn process_programming(&mut self, value: u16, config: &mut EepromConfig) -> (r: Option<CommandResult>)
        ensures
            (*final(self), final(config).bytes_spec(), r) == programming_spec(*old(self), value, *old(config)),
    {
        if self.programming_mode == 1 {
            self.position = value;
            self.programming_mode = 2;
            None
        } else if self.programming_mode == 2 {
            self.new_byte = value as u8;
            self.programming_mode = 3;
            None
        } else if self.programming_mode == 3 {
            if value == 37 {
                let pos = self.position as usize;
                if pos < EEPROM_SIZE {
                    config.set_byte(pos, self.new_byte);
                }
                self.programming_mode = 0;
                Some(CommandResult::ProgrammingCommit { position: self.position, value: self.new_byte })
            } else {
                None
            }
        } else {
            None
        }
    }

    /// Whether programming mode is active.
    pub fn in_programming_mode(&self) -> (r: bool)
        ensures
            r == (self.programming_mode > 0),
    {
        self.programming_mode > 0
    }
}

/// Nothing changes while the motor runs or is disarmed: commands are ignored.
pub proof fn lemma_commands_ignored_unless_armed_and_stopped(p: CommandProcessor, cmd: u16, armed: bool, running: bool, config: EepromConfig, forward: bool, edt_armed: bool, edt_arm_enable: bool)
    requires
        !armed || running,
    ensures
        process_spec(p, cmd, armed, running, config, forward, edt_armed, edt_arm_enable) == (p, config, forward, edt_armed, CommandResult::NoAction),
{
}

/// A settings command (6 and up) is executed only on its sixth consecutive frame:
/// five frames of a fresh command leave the settings and direction untouched.
pub proof fn lemma_command_needs_repeats(p: CommandProcessor, cmd: u16, config: EepromConfig, forward: bool, edt_armed: bool, edt_arm_enable: bool)
    requires
        6 <= cmd <= 47,
        cmd != p.last_command as u16,
    ensures
        ({
            let r = process_spec(p, cmd, true, false, config, forward, edt_armed, edt_arm_enable);
            &&& r.1 == config && r.2 == forward && r.3 == edt_armed
            &&& r.4 == CommandResult::NoAction
            &&& r.0.command_count == 1
        }),
{
}

/// The outcome of `n` (at least 1) consecutive frames of the same command while
/// armed and stopped.
pub open spec fn process_repeated(p: CommandProcessor, cmd: u16, n: nat, config: EepromConfig, forward: bool, edt_armed: bool, edt_arm_enable: bool)
    -> (CommandProcessor, EepromConfig, bool, bool, CommandResult)
    decreases n,
{
    if n <= 1 {
        process_spec(p, cmd, true, false, config, forward, edt_armed, edt_arm_enable)
    } else {
        let r = process_repeated(p, cmd, (n - 1) as nat, config, forward, edt_armed, edt_arm_enable);
        process_spec(r.0, cmd, true, false, r.1, r.2, r.3, edt_arm_enable)
    }
}

/// Repeating a fresh settings command (6 and up) while armed and stopped: the
/// first five frames change nothing and give no action; the sixth executes it,
/// with the settings, direction, EDT arming and result of `execute_spec`. A
/// beacon (1-5) plays its tone on the first frame.
pub proof fn lemma_command_acts_on_sixth_frame(p: CommandProcessor, cmd: u16, config: EepromConfig, forward: bool, edt_armed: bool, edt_arm_enable: bool)
    requires
        1 <= cmd <= 47,
        cmd != p.last_command as u16,
    ensures
        cmd <= 5 ==> process_spec(p, cmd, true, false, config, forward, edt_armed, edt_arm_enable).4 == CommandResult::PlayTone(cmd as u8),
        cmd >= 6 ==> forall|n: nat| 1 <= n <= 5 ==> {
            let r = #[trigger] process_repeated(p, cmd, n, config, forward, edt_armed, edt_arm_enable);
            &&& r.1 == config && r.2 == forward && r.3 == edt_armed
            &&& r.4 == CommandResult::NoAction
            &&& r.0.command_count == n && r.0.last_command as u16 == cmd
        },
        cmd >= 6 ==> {
            let r = process_repeated(p, cmd, 6, config, forward, edt_armed, edt_arm_enable);
            let e = execute_spec(p, cmd, config, forward, edt_armed, edt_arm_enable);
            (r.1, r.2, r.3, r.4) == (e.1, e.2, e.3, e.4)
        },
{
    if cmd >= 6 {
        assert forall|n: nat| 1 <= n <= 5 implies {
            let r = #[trigger] process_repeated(p, cmd, n, config, forward, edt_armed, edt_arm_enable);
            &&& r.1 == config && r.2 == forward && r.3 == edt_armed
            &&& r.4 == CommandResult::NoAction
            &&& r.0.command_count == n && r.0.last_command as u16 == cmd
        } by {
            lemma_repeated_counts(p, cmd, n, config, forward, edt_armed, edt_arm_enable);
        }
        lemma_repeated_counts(p, cmd, 5, config, forward, edt_armed, edt_arm_enable);
        reveal_with_fuel(process_repeated, 2);
    }
}

proof fn lemma_repeated_counts(p: CommandProcessor, cmd: u16, n: nat, config: EepromConfig, forward: bool, edt_armed: bool, edt_arm_enable: bool)
    requires
        6 <= cmd <= 47,
        cmd != p.last_command as u16,
        1 <= n <= 5,
    ensures
        ({
            let r = process_repeated(p, cmd, n, config, forward, edt_armed, edt_arm_enable);
            &&& r.1 == config && r.2 == forward && r.3 == edt_armed
            &&& r.4 == CommandResult::NoAction
            &&& r.0.command_count == n && r.0.last_command as u16 == cmd
        }),
    decreases n,
{
    if n > 1 {
        lemma_repeated_counts(p, cmd, (n - 1) as nat, config, forward, edt_armed, edt_arm_enable);
    }
}

} // verus!
