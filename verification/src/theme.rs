//! The theme store: one flat record of every themeable attribute, a fixed
//! enumeration of its slots (roles), and the mapping from a role name in a
//! theme file to the slot it fills. Every slot has a default, so a store is
//! never partially built: an empty theme file yields a fully populated,
//! merely unthemed store.

use vstd::prelude::*;

use crate::scan;

verus! {

/// The flat record of named visual attributes: a foreground/background color
/// for each themed element, and a single-character glyph for each status mark.
#[derive(Clone, Copy, Debug, PartialEq, Eq)]
pub struct Theme {
    pub separator_fg: (u8, u8, u8),
    pub home_bg: (u8, u8, u8),
    pub home_fg: (u8, u8, u8),
    pub path_bg: (u8, u8, u8),
    pub path_fg: (u8, u8, u8),
    pub cwd_fg: (u8, u8, u8),
    pub username_bg: (u8, u8, u8),
    pub username_fg: (u8, u8, u8),
    pub username_root_bg: (u8, u8, u8),
    pub username_root_fg: (u8, u8, u8),
    pub hostname_bg: (u8, u8, u8),
    pub hostname_fg: (u8, u8, u8),
    pub jobs_bg: (u8, u8, u8),
    pub jobs_fg: (u8, u8, u8),
    pub time_bg: (u8, u8, u8),
    pub time_fg: (u8, u8, u8),
    pub ssh_bg: (u8, u8, u8),
    pub ssh_fg: (u8, u8, u8),
    pub ro_bg: (u8, u8, u8),
    pub ro_fg: (u8, u8, u8),
    pub git_clean_bg: (u8, u8, u8),
    pub git_clean_fg: (u8, u8, u8),
    pub git_dirty_bg: (u8, u8, u8),
    pub git_dirty_fg: (u8, u8, u8),
    pub git_ahead_bg: (u8, u8, u8),
    pub git_ahead_fg: (u8, u8, u8),
    pub git_behind_bg: (u8, u8, u8),
    pub git_behind_fg: (u8, u8, u8),
    pub git_conflicted_bg: (u8, u8, u8),
    pub git_conflicted_fg: (u8, u8, u8),
    pub git_notstaged_bg: (u8, u8, u8),
    pub git_notstaged_fg: (u8, u8, u8),
    pub git_staged_bg: (u8, u8, u8),
    pub git_staged_fg: (u8, u8, u8),
    pub git_untracked_bg: (u8, u8, u8),
    pub git_untracked_fg: (u8, u8, u8),
    pub cmd_passed_bg: (u8, u8, u8),
    pub cmd_passed_fg: (u8, u8, u8),
    pub cmd_failed_bg: (u8, u8, u8),
    pub cmd_failed_fg: (u8, u8, u8),
    pub ps_bg: (u8, u8, u8),
    pub ps_fg: (u8, u8, u8),
    pub virtual_env_bg: (u8, u8, u8),
    pub virtual_env_fg: (u8, u8, u8),
    pub nixshell_bg: (u8, u8, u8),
    pub nixshell_fg: (u8, u8, u8),
    pub ssh_char: char,
    pub ro_char: char,
    pub git_ahead_char: char,
    pub git_behind_char: char,
    pub git_staged_char: char,
    pub git_notstaged_char: char,
    pub git_untracked_char: char,
    pub git_conflicted_char: char,
}

/// One color-valued slot of the store. `PsBg` and `PsFg` are slots with
/// defaults but no role name: no theme file line can address them.
#[derive(Clone, Copy, Debug, PartialEq, Eq)]
pub enum RgbRole {
    SeparatorFg,
    HomeBg,
    HomeFg,
    PathBg,
    PathFg,
    CwdFg,
    UsernameBg,
    UsernameFg,
    UsernameRootBg,
    UsernameRootFg,
    HostnameBg,
    HostnameFg,
    JobsBg,
    JobsFg,
    TimeBg,
    TimeFg,
    SshBg,
    SshFg,
    RoBg,
    RoFg,
    GitCleanBg,
    GitCleanFg,
    GitDirtyBg,
    GitDirtyFg,
    GitAheadBg,
    GitAheadFg,
    GitBehindBg,
    GitBehindFg,
    GitConflictedBg,
    GitConflictedFg,
    GitNotstagedBg,
    GitNotstagedFg,
    GitStagedBg,
    GitStagedFg,
    GitUntrackedBg,
    GitUntrackedFg,
    CmdPassedBg,
    CmdPassedFg,
    CmdFailedBg,
    CmdFailedFg,
    PsBg,
    PsFg,
    VirtualEnvBg,
    VirtualEnvFg,
    NixshellBg,
    NixshellFg,
}

/// One glyph-valued slot of the store.
#[derive(Clone, Copy, Debug, PartialEq, Eq)]
pub enum CharRole {
    SshChar,
    RoChar,
    GitAheadChar,
    GitBehindChar,
    GitStagedChar,
    GitNotstagedChar,
    GitUntrackedChar,
    GitConflictedChar,
}

/// The color stored in the given slot.
pub open spec fn spec_rgb(t: Theme, r: RgbRole) -> (u8, u8, u8) {
    match r {
        RgbRole::SeparatorFg => t.separator_fg,
        RgbRole::HomeBg => t.home_bg,
        RgbRole::HomeFg => t.home_fg,
        RgbRole::PathBg => t.path_bg,
        RgbRole::PathFg => t.path_fg,
        RgbRole::CwdFg => t.cwd_fg,
        RgbRole::UsernameBg => t.username_bg,
        RgbRole::UsernameFg => t.username_fg,
        RgbRole::UsernameRootBg => t.username_root_bg,
        RgbRole::UsernameRootFg => t.username_root_fg,
        RgbRole::HostnameBg => t.hostname_bg,
        RgbRole::HostnameFg => t.hostname_fg,
        RgbRole::JobsBg => t.jobs_bg,
        RgbRole::JobsFg => t.jobs_fg,
        RgbRole::TimeBg => t.time_bg,
        RgbRole::TimeFg => t.time_fg,
        RgbRole::SshBg => t.ssh_bg,
        RgbRole::SshFg => t.ssh_fg,
        RgbRole::RoBg => t.ro_bg,
        RgbRole::RoFg => t.ro_fg,
        RgbRole::GitCleanBg => t.git_clean_bg,
        RgbRole::GitCleanFg => t.git_clean_fg,
        RgbRole::GitDirtyBg => t.git_dirty_bg,
        RgbRole::GitDirtyFg => t.git_dirty_fg,
        RgbRole::GitAheadBg => t.git_ahead_bg,
        RgbRole::GitAheadFg => t.git_ahead_fg,
        RgbRole::GitBehindBg => t.git_behind_bg,
        RgbRole::GitBehindFg => t.git_behind_fg,
        RgbRole::GitConflictedBg => t.git_conflicted_bg,
        RgbRole::GitConflictedFg => t.git_conflicted_fg,
        RgbRole::GitNotstagedBg => t.git_notstaged_bg,
        RgbRole::GitNotstagedFg => t.git_notstaged_fg,
        RgbRole::GitStagedBg => t.git_staged_bg,
        RgbRole::GitStagedFg => t.git_staged_fg,
        RgbRole::GitUntrackedBg => t.git_untracked_bg,
        RgbRole::GitUntrackedFg => t.git_untracked_fg,
        RgbRole::CmdPassedBg => t.cmd_passed_bg,
        RgbRole::CmdPassedFg => t.cmd_passed_fg,
        RgbRole::CmdFailedBg => t.cmd_failed_bg,
        RgbRole::CmdFailedFg => t.cmd_failed_fg,
        RgbRole::PsBg => t.ps_bg,
        RgbRole::PsFg => t.ps_fg,
        RgbRole::VirtualEnvBg => t.virtual_env_bg,
        RgbRole::VirtualEnvFg => t.virtual_env_fg,
        RgbRole::NixshellBg => t.nixshell_bg,
        RgbRole::NixshellFg => t.nixshell_fg,
    }
}

/// The glyph stored in the given slot.
pub open spec fn spec_char(t: Theme, r: CharRole) -> char {
    match r {
        CharRole::SshChar => t.ssh_char,
        CharRole::RoChar => t.ro_char,
        CharRole::GitAheadChar => t.git_ahead_char,
        CharRole::GitBehindChar => t.git_behind_char,
        CharRole::GitStagedChar => t.git_staged_char,
        CharRole::GitNotstagedChar => t.git_notstaged_char,
        CharRole::GitUntrackedChar => t.git_untracked_char,
        CharRole::GitConflictedChar => t.git_conflicted_char,
    }
}

/// The store with the given color slot set to `v` and all else unchanged.
pub open spec fn spec_set_rgb(t: Theme, r: RgbRole, v: (u8, u8, u8)) -> Theme {
    match r {
        RgbRole::SeparatorFg => Theme { separator_fg: v, ..t },
        RgbRole::HomeBg => Theme { home_bg: v, ..t },
        RgbRole::HomeFg => Theme { home_fg: v, ..t },
        RgbRole::PathBg => Theme { path_bg: v, ..t },
        RgbRole::PathFg => Theme { path_fg: v, ..t },
        RgbRole::CwdFg => Theme { cwd_fg: v, ..t },
        RgbRole::UsernameBg => Theme { username_bg: v, ..t },
        RgbRole::UsernameFg => Theme { username_fg: v, ..t },
        RgbRole::UsernameRootBg => Theme { username_root_bg: v, ..t },
        RgbRole::UsernameRootFg => Theme { username_root_fg: v, ..t },
        RgbRole::HostnameBg => Theme { hostname_bg: v, ..t },
        RgbRole::HostnameFg => Theme { hostname_fg: v, ..t },
        RgbRole::JobsBg => Theme { jobs_bg: v, ..t },
        RgbRole::JobsFg => Theme { jobs_fg: v, ..t },
        RgbRole::TimeBg => Theme { time_bg: v, ..t },
        RgbRole::TimeFg => Theme { time_fg: v, ..t },
        RgbRole::SshBg => Theme { ssh_bg: v, ..t },
        RgbRole::SshFg => Theme { ssh_fg: v, ..t },
        RgbRole::RoBg => Theme { ro_bg: v, ..t },
        RgbRole::RoFg => Theme { ro_fg: v, ..t },
        RgbRole::GitCleanBg => Theme { git_clean_bg: v, ..t },
        RgbRole::GitCleanFg => Theme { git_clean_fg: v, ..t },
        RgbRole::GitDirtyBg => Theme { git_dirty_bg: v, ..t },
        RgbRole::GitDirtyFg => Theme { git_dirty_fg: v, ..t },
        RgbRole::GitAheadBg => Theme { git_ahead_bg: v, ..t },
        RgbRole::GitAheadFg => Theme { git_ahead_fg: v, ..t },
        RgbRole::GitBehindBg => Theme { git_behind_bg: v, ..t },
        RgbRole::GitBehindFg => Theme { git_behind_fg: v, ..t },
        RgbRole::GitConflictedBg => Theme { git_conflicted_bg: v, ..t },
        RgbRole::GitConflictedFg => Theme { git_conflicted_fg: v, ..t },
        RgbRole::GitNotstagedBg => Theme { git_notstaged_bg: v, ..t },
        RgbRole::GitNotstagedFg => Theme { git_notstaged_fg: v, ..t },
        RgbRole::GitStagedBg => Theme { git_staged_bg: v, ..t },
        RgbRole::GitStagedFg => Theme { git_staged_fg: v, ..t },
        RgbRole::GitUntrackedBg => Theme { git_untracked_bg: v, ..t },
        RgbRole::GitUntrackedFg => Theme { git_untracked_fg: v, ..t },
        RgbRole::CmdPassedBg => Theme { cmd_passed_bg: v, ..t },
        RgbRole::CmdPassedFg => Theme { cmd_passed_fg: v, ..t },
        RgbRole::CmdFailedBg => Theme { cmd_failed_bg: v, ..t },
        RgbRole::CmdFailedFg => Theme { cmd_failed_fg: v, ..t },
        RgbRole::PsBg => Theme { ps_bg: v, ..t },
        RgbRole::PsFg => Theme { ps_fg: v, ..t },
        RgbRole::VirtualEnvBg => Theme { virtual_env_bg: v, ..t },
        RgbRole::VirtualEnvFg => Theme { virtual_env_fg: v, ..t },
        RgbRole::NixshellBg => Theme { nixshell_bg: v, ..t },
        RgbRole::NixshellFg => Theme { nixshell_fg: v, ..t },
    }
}

/// The store with the given glyph slot set to `c` and all else unchanged.
pub open spec fn spec_set_char(t: Theme, r: CharRole, c: char) -> Theme {
    match r {
        CharRole::SshChar => Theme { ssh_char: c, ..t },
        CharRole::RoChar => Theme { ro_char: c, ..t },
        CharRole::GitAheadChar => Theme { git_ahead_char: c, ..t },
        CharRole::GitBehindChar => Theme { git_behind_char: c, ..t },
        CharRole::GitStagedChar => Theme { git_staged_char: c, ..t },
        CharRole::GitNotstagedChar => Theme { git_notstaged_char: c, ..t },
        CharRole::GitUntrackedChar => Theme { git_untracked_char: c, ..t },
        CharRole::GitConflictedChar => Theme { git_conflicted_char: c, ..t },
    }
}

/// The store before any theme file line is applied: black colors and the NUL
/// glyph everywhere.
pub open spec fn default_theme() -> Theme {
    Theme {
        separator_fg: (0u8, 0u8, 0u8),
        home_bg: (0u8, 0u8, 0u8),
        home_fg: (0u8, 0u8, 0u8),
        path_bg: (0u8, 0u8, 0u8),
        path_fg: (0u8, 0u8, 0u8),
        cwd_fg: (0u8, 0u8, 0u8),
        username_bg: (0u8, 0u8, 0u8),
        username_fg: (0u8, 0u8, 0u8),
        username_root_bg: (0u8, 0u8, 0u8),
        username_root_fg: (0u8, 0u8, 0u8),
        hostname_bg: (0u8, 0u8, 0u8),
        hostname_fg: (0u8, 0u8, 0u8),
        jobs_bg: (0u8, 0u8, 0u8),
        jobs_fg: (0u8, 0u8, 0u8),
        time_bg: (0u8, 0u8, 0u8),
        time_fg: (0u8, 0u8, 0u8),
        ssh_bg: (0u8, 0u8, 0u8),
        ssh_fg: (0u8, 0u8, 0u8),
        ro_bg: (0u8, 0u8, 0u8),
        ro_fg: (0u8, 0u8, 0u8),
        git_clean_bg: (0u8, 0u8, 0u8),
        git_clean_fg: (0u8, 0u8, 0u8),
        git_dirty_bg: (0u8, 0u8, 0u8),
        git_dirty_fg: (0u8, 0u8, 0u8),
        git_ahead_bg: (0u8, 0u8, 0u8),
        git_ahead_fg: (0u8, 0u8, 0u8),
        git_behind_bg: (0u8, 0u8, 0u8),
        git_behind_fg: (0u8, 0u8, 0u8),
        git_conflicted_bg: (0u8, 0u8, 0u8),
        git_conflicted_fg: (0u8, 0u8, 0u8),
        git_notstaged_bg: (0u8, 0u8, 0u8),
        git_notstaged_fg: (0u8, 0u8, 0u8),
        git_staged_bg: (0u8, 0u8, 0u8),
        git_staged_fg: (0u8, 0u8, 0u8),
        git_untracked_bg: (0u8, 0u8, 0u8),
        git_untracked_fg: (0u8, 0u8, 0u8),
        cmd_passed_bg: (0u8, 0u8, 0u8),
        cmd_passed_fg: (0u8, 0u8, 0u8),
        cmd_failed_bg: (0u8, 0u8, 0u8),
        cmd_failed_fg: (0u8, 0u8, 0u8),
        ps_bg: (0u8, 0u8, 0u8),
        ps_fg: (0u8, 0u8, 0u8),
        virtual_env_bg: (0u8, 0u8, 0u8),
        virtual_env_fg: (0u8, 0u8, 0u8),
        nixshell_bg: (0u8, 0u8, 0u8),
        nixshell_fg: (0u8, 0u8, 0u8),
        ssh_char: '\u{0}',
        ro_char: '\u{0}',
        git_ahead_char: '\u{0}',
        git_behind_char: '\u{0}',
        git_staged_char: '\u{0}',
        git_notstaged_char: '\u{0}',
        git_untracked_char: '\u{0}',
        git_conflicted_char: '\u{0}',
    }
}

impl Default for Theme {
    fn default() -> (t: Theme)
        ensures
            t == default_theme(),
    {
        Theme {
            separator_fg: (0u8, 0u8, 0u8),
            home_bg: (0u8, 0u8, 0u8),
            home_fg: (0u8, 0u8, 0u8),
            path_bg: (0u8, 0u8, 0u8),
            path_fg: (0u8, 0u8, 0u8),
            cwd_fg: (0u8, 0u8, 0u8),
            username_bg: (0u8, 0u8, 0u8),
            username_fg: (0u8, 0u8, 0u8),
            username_root_bg: (0u8, 0u8, 0u8),
            username_root_fg: (0u8, 0u8, 0u8),
            hostname_bg: (0u8, 0u8, 0u8),
            hostname_fg: (0u8, 0u8, 0u8),
            jobs_bg: (0u8, 0u8, 0u8),
            jobs_fg: (0u8, 0u8, 0u8),
            time_bg: (0u8, 0u8, 0u8),
            time_fg: (0u8, 0u8, 0u8),
            ssh_bg: (0u8, 0u8, 0u8),
            ssh_fg: (0u8, 0u8, 0u8),
            ro_bg: (0u8, 0u8, 0u8),
            ro_fg: (0u8, 0u8, 0u8),
            git_clean_bg: (0u8, 0u8, 0u8),
            git_clean_fg: (0u8, 0u8, 0u8),
            git_dirty_bg: (0u8, 0u8, 0u8),
            git_dirty_fg: (0u8, 0u8, 0u8),
            git_ahead_bg: (0u8, 0u8, 0u8),
            git_ahead_fg: (0u8, 0u8, 0u8),
            git_behind_bg: (0u8, 0u8, 0u8),
            git_behind_fg: (0u8, 0u8, 0u8),
            git_conflicted_bg: (0u8, 0u8, 0u8),
            git_conflicted_fg: (0u8, 0u8, 0u8),
            git_notstaged_bg: (0u8, 0u8, 0u8),
            git_notstaged_fg: (0u8, 0u8, 0u8),
            git_staged_bg: (0u8, 0u8, 0u8),
            git_staged_fg: (0u8, 0u8, 0u8),
            git_untracked_bg: (0u8, 0u8, 0u8),
            git_untracked_fg: (0u8, 0u8, 0u8),
            cmd_passed_bg: (0u8, 0u8, 0u8),
            cmd_passed_fg: (0u8, 0u8, 0u8),
            cmd_failed_bg: (0u8, 0u8, 0u8),
            cmd_failed_fg: (0u8, 0u8, 0u8),
            ps_bg: (0u8, 0u8, 0u8),
            ps_fg: (0u8, 0u8, 0u8),
            virtual_env_bg: (0u8, 0u8, 0u8),
            virtual_env_fg: (0u8, 0u8, 0u8),
            nixshell_bg: (0u8, 0u8, 0u8),
            nixshell_fg: (0u8, 0u8, 0u8),
            ssh_char: '\u{0}',
            ro_char: '\u{0}',
            git_ahead_char: '\u{0}',
            git_behind_char: '\u{0}',
            git_staged_char: '\u{0}',
            git_notstaged_char: '\u{0}',
            git_untracked_char: '\u{0}',
            git_conflicted_char: '\u{0}',
        }
    }
}

impl Theme {
    /// Writes the given color slot, leaving every other slot as it was.
    pub fn set_rgb(&mut self, role: RgbRole, v: (u8, u8, u8))
        ensures
            *final(self) == spec_set_rgb(*old(self), role, v),
    {
        match role {
            RgbRole::SeparatorFg => {
                self.separator_fg = v;
            },
            RgbRole::HomeBg => {
                self.home_bg = v;
            },
            RgbRole::HomeFg => {
                self.home_fg = v;
            },
            RgbRole::PathBg => {
                self.path_bg = v;
            },
            RgbRole::PathFg => {
                self.path_fg = v;
            },
            RgbRole::CwdFg => {
                self.cwd_fg = v;
            },
            RgbRole::UsernameBg => {
                self.username_bg = v;
            },
            RgbRole::UsernameFg => {
                self.username_fg = v;
            },
            RgbRole::UsernameRootBg => {
                self.username_root_bg = v;
            },
            RgbRole::UsernameRootFg => {
                self.username_root_fg = v;
            },
            RgbRole::HostnameBg => {
                self.hostname_bg = v;
            },
            RgbRole::HostnameFg => {
                self.hostname_fg = v;
            },
            RgbRole::JobsBg => {
                self.jobs_bg = v;
            },
            RgbRole::JobsFg => {
                self.jobs_fg = v;
            },
            RgbRole::TimeBg => {
                self.time_bg = v;
            },
            RgbRole::TimeFg => {
                self.time_fg = v;
            },
            RgbRole::SshBg => {
                self.ssh_bg = v;
            },
            RgbRole::SshFg => {
                self.ssh_fg = v;
            },
            RgbRole::RoBg => {
                self.ro_bg = v;
            },
            RgbRole::RoFg => {
                self.ro_fg = v;
            },
            RgbRole::GitCleanBg => {
                self.git_clean_bg = v;
            },
            RgbRole::GitCleanFg => {
                self.git_clean_fg = v;
            },
            RgbRole::GitDirtyBg => {
                self.git_dirty_bg = v;
            },
            RgbRole::GitDirtyFg => {
                self.git_dirty_fg = v;
            },
            RgbRole::GitAheadBg => {
                self.git_ahead_bg = v;
            },
            RgbRole::GitAheadFg => {
                self.git_ahead_fg = v;
            },
            RgbRole::GitBehindBg => {
                self.git_behind_bg = v;
            },
            RgbRole::GitBehindFg => {
                self.git_behind_fg = v;
            },
            RgbRole::GitConflictedBg => {
                self.git_conflicted_bg = v;
            },
            RgbRole::GitConflictedFg => {
                self.git_conflicted_fg = v;
            },
            RgbRole::GitNotstagedBg => {
                self.git_notstaged_bg = v;
            },
            RgbRole::GitNotstagedFg => {
                self.git_notstaged_fg = v;
            },
            RgbRole::GitStagedBg => {
                self.git_staged_bg = v;
            },
            RgbRole::GitStagedFg => {
                self.git_staged_fg = v;
            },
            RgbRole::GitUntrackedBg => {
                self.git_untracked_bg = v;
            },
            RgbRole::GitUntrackedFg => {
                self.git_untracked_fg = v;
            },
            RgbRole::CmdPassedBg => {
                self.cmd_passed_bg = v;
            },
            RgbRole::CmdPassedFg => {
                self.cmd_passed_fg = v;
            },
            RgbRole::CmdFailedBg => {
                self.cmd_failed_bg = v;
            },
            RgbRole::CmdFailedFg => {
                self.cmd_failed_fg = v;
            },
            RgbRole::PsBg => {
                self.ps_bg = v;
            },
            RgbRole::PsFg => {
                self.ps_fg = v;
            },
            RgbRole::VirtualEnvBg => {
                self.virtual_env_bg = v;
            },
            RgbRole::VirtualEnvFg => {
                self.virtual_env_fg = v;
            },
            RgbRole::NixshellBg => {
                self.nixshell_bg = v;
            },
            RgbRole::NixshellFg => {
                self.nixshell_fg = v;
            },
        }
    }

    /// Writes the given glyph slot, leaving every other slot as it was.
    pub fn set_char(&mut self, role: CharRole, c: char)
        ensures
            *final(self) == spec_set_char(*old(self), role, c),
    {
        match role {
            CharRole::SshChar => {
                self.ssh_char = c;
            },
            CharRole::RoChar => {
                self.ro_char = c;
            },
            CharRole::GitAheadChar => {
                self.git_ahead_char = c;
            },
            CharRole::GitBehindChar => {
                self.git_behind_char = c;
            },
            CharRole::GitStagedChar => {
                self.git_staged_char = c;
            },
            CharRole::GitNotstagedChar => {
                self.git_notstaged_char = c;
            },
            CharRole::GitUntrackedChar => {
                self.git_untracked_char = c;
            },
            CharRole::GitConflictedChar => {
                self.git_conflicted_char = c;
            },
        }
    }
}

/// The color slot a role name addresses, if the name is recognized.
pub open spec fn rgb_role_of_name(n: Seq<char>) -> Option<RgbRole> {
    if n == "separator_fg"@ {
        Some(RgbRole::SeparatorFg)
    } else if n == "home_bg"@ {
        Some(RgbRole::HomeBg)
    } else if n == "home_fg"@ {
        Some(RgbRole::HomeFg)
    } else if n == "path_bg"@ {
        Some(RgbRole::PathBg)
    } else if n == "path_fg"@ {
        Some(RgbRole::PathFg)
    } else if n == "cwd_fg"@ {
        Some(RgbRole::CwdFg)
    } else if n == "username_bg"@ {
        Some(RgbRole::UsernameBg)
    } else if n == "username_fg"@ {
        Some(RgbRole::UsernameFg)
    } else if n == "username_root_bg"@ {
        Some(RgbRole::UsernameRootBg)
    } else if n == "username_root_fg"@ {
        Some(RgbRole::UsernameRootFg)
    } else if n == "hostname_bg"@ {
        Some(RgbRole::HostnameBg)
    } else if n == "hostname_fg"@ {
        Some(RgbRole::HostnameFg)
    } else if n == "jobs_bg"@ {
        Some(RgbRole::JobsBg)
    } else if n == "jobs_fg"@ {
        Some(RgbRole::JobsFg)
    } else if n == "time_bg"@ {
        Some(RgbRole::TimeBg)
    } else if n == "time_fg"@ {
        Some(RgbRole::TimeFg)
    } else if n == "ssh_bg"@ {
        Some(RgbRole::SshBg)
    } else if n == "ssh_fg"@ {
        Some(RgbRole::SshFg)
    } else if n == "ro_bg"@ {
        Some(RgbRole::RoBg)
    } else if n == "ro_fg"@ {
        Some(RgbRole::RoFg)
    } else if n == "git_clean_bg"@ {
        Some(RgbRole::GitCleanBg)
    } else if n == "git_clean_fg"@ {
        Some(RgbRole::GitCleanFg)
    } else if n == "git_dirty_bg"@ {
        Some(RgbRole::GitDirtyBg)
    } else if n == "git_dirty_fg"@ {
        Some(RgbRole::GitDirtyFg)
    } else if n == "git_ahead_bg"@ {
        Some(RgbRole::GitAheadBg)
    } else if n == "git_ahead_fg"@ {
        Some(RgbRole::GitAheadFg)
    } else if n == "git_behind_bg"@ {
        Some(RgbRole::GitBehindBg)
    } else if n == "git_behind_fg"@ {
        Some(RgbRole::GitBehindFg)
    } else if n == "git_conflicted_bg"@ {
        Some(RgbRole::GitConflictedBg)
    } else if n == "git_conflicted_fg"@ {
        Some(RgbRole::GitConflictedFg)
    } else if n == "git_notstaged_bg"@ {
        Some(RgbRole::GitNotstagedBg)
    } else if n == "git_notstaged_fg"@ {
        Some(RgbRole::GitNotstagedFg)
    } else if n == "git_staged_bg"@ {
        Some(RgbRole::GitStagedBg)
    } else if n == "git_staged_fg"@ {
        Some(RgbRole::GitStagedFg)
    } else if n == "git_untracked_bg"@ {
        Some(RgbRole::GitUntrackedBg)
    } else if n == "git_untracked_fg"@ {
        Some(RgbRole::GitUntrackedFg)
    } else if n == "cmd_passed_bg"@ {
        Some(RgbRole::CmdPassedBg)
    } else if n == "cmd_passed_fg"@ {
        Some(RgbRole::CmdPassedFg)
    } else if n == "cmd_failed_bg"@ {
        Some(RgbRole::CmdFailedBg)
    } else if n == "cmd_failed_fg"@ {
        Some(RgbRole::CmdFailedFg)
    } else if n == "virtual_env_bg"@ {
        Some(RgbRole::VirtualEnvBg)
    } else if n == "virtual_env_fg"@ {
        Some(RgbRole::VirtualEnvFg)
    } else if n == "nixshell_bg"@ {
        Some(RgbRole::NixshellBg)
    } else if n == "nixshell_fg"@ {
        Some(RgbRole::NixshellFg)
    } else {
        None
    }
}

/// The glyph slot a role name addresses, if the name is recognized.
pub open spec fn char_role_of_name(n: Seq<char>) -> Option<CharRole> {
    if n == "ssh_char"@ {
        Some(CharRole::SshChar)
    } else if n == "ro_char"@ {
        Some(CharRole::RoChar)
    } else if n == "git_ahead_char"@ {
        Some(CharRole::GitAheadChar)
    } else if n == "git_behind_char"@ {
        Some(CharRole::GitBehindChar)
    } else if n == "git_staged_char"@ {
        Some(CharRole::GitStagedChar)
    } else if n == "git_notstaged_char"@ {
        Some(CharRole::GitNotstagedChar)
    } else if n == "git_untracked_char"@ {
        Some(CharRole::GitUntrackedChar)
    } else if n == "git_conflicted_char"@ {
        Some(CharRole::GitConflictedChar)
    } else {
        None
    }
}

/// Resolves a role name to its color slot; `None` for an unrecognized name.
pub fn theme_index_rgb(name: &str) -> (r: Option<RgbRole>)
    ensures
        r == rgb_role_of_name(name@),
{
    if scan::str_eq(name, "separator_fg") {
        Some(RgbRole::SeparatorFg)
    } else if scan::str_eq(name, "home_bg") {
        Some(RgbRole::HomeBg)
    } else if scan::str_eq(name, "home_fg") {
        Some(RgbRole::HomeFg)
    } else if scan::str_eq(name, "path_bg") {
        Some(RgbRole::PathBg)
    } else if scan::str_eq(name, "path_fg") {
        Some(RgbRole::PathFg)
    } else if scan::str_eq(name, "cwd_fg") {
        Some(RgbRole::CwdFg)
    } else if scan::str_eq(name, "username_bg") {
        Some(RgbRole::UsernameBg)
    } else if scan::str_eq(name, "username_fg") {
        Some(RgbRole::UsernameFg)
    } else if scan::str_eq(name, "username_root_bg") {
        Some(RgbRole::UsernameRootBg)
    } else if scan::str_eq(name, "username_root_fg") {
        Some(RgbRole::UsernameRootFg)
    } else if scan::str_eq(name, "hostname_bg") {
        Some(RgbRole::HostnameBg)
    } else if scan::str_eq(name, "hostname_fg") {
        Some(RgbRole::HostnameFg)
    } else if scan::str_eq(name, "jobs_bg") {
        Some(RgbRole::JobsBg)
    } else if scan::str_eq(name, "jobs_fg") {
        Some(RgbRole::JobsFg)
    } else if scan::str_eq(name, "time_bg") {
        Some(RgbRole::TimeBg)
    } else if scan::str_eq(name, "time_fg") {
        Some(RgbRole::TimeFg)
    } else if scan::str_eq(name, "ssh_bg") {
        Some(RgbRole::SshBg)
    } else if scan::str_eq(name, "ssh_fg") {
        Some(RgbRole::SshFg)
    } else if scan::str_eq(name, "ro_bg") {
        Some(RgbRole::RoBg)
    } else if scan::str_eq(name, "ro_fg") {
        Some(RgbRole::RoFg)
    } else if scan::str_eq(name, "git_clean_bg") {
        Some(RgbRole::GitCleanBg)
    } else if scan::str_eq(name, "git_clean_fg") {
        Some(RgbRole::GitCleanFg)
    } else if scan::str_eq(name, "git_dirty_bg") {
        Some(RgbRole::GitDirtyBg)
    } else if scan::str_eq(name, "git_dirty_fg") {
        Some(RgbRole::GitDirtyFg)
    } else if scan::str_eq(name, "git_ahead_bg") {
        Some(RgbRole::GitAheadBg)
    } else if scan::str_eq(name, "git_ahead_fg") {
        Some(RgbRole::GitAheadFg)
    } else if scan::str_eq(name, "git_behind_bg") {
        Some(RgbRole::GitBehindBg)
    } else if scan::str_eq(name, "git_behind_fg") {
        Some(RgbRole::GitBehindFg)
    } else if scan::str_eq(name, "git_conflicted_bg") {
        Some(RgbRole::GitConflictedBg)
    } else if scan::str_eq(name, "git_conflicted_fg") {
        Some(RgbRole::GitConflictedFg)
    } else if scan::str_eq(name, "git_notstaged_bg") {
        Some(RgbRole::GitNotstagedBg)
    } else if scan::str_eq(name, "git_notstaged_fg") {
        Some(RgbRole::GitNotstagedFg)
    } else if scan::str_eq(name, "git_staged_bg") {
        Some(RgbRole::GitStagedBg)
    } else if scan::str_eq(name, "git_staged_fg") {
        Some(RgbRole::GitStagedFg)
    } else if scan::str_eq(name, "git_untracked_bg") {
        Some(RgbRole::GitUntrackedBg)
    } else if scan::str_eq(name, "git_untracked_fg") {
        Some(RgbRole::GitUntrackedFg)
    } else if scan::str_eq(name, "cmd_passed_bg") {
        Some(RgbRole::CmdPassedBg)
    } else if scan::str_eq(name, "cmd_passed_fg") {
        Some(RgbRole::CmdPassedFg)
    } else if scan::str_eq(name, "cmd_failed_bg") {
        Some(RgbRole::CmdFailedBg)
    } else if scan::str_eq(name, "cmd_failed_fg") {
        Some(RgbRole::CmdFailedFg)
    } else if scan::str_eq(name, "virtual_env_bg") {
        Some(RgbRole::VirtualEnvBg)
    } else if scan::str_eq(name, "virtual_env_fg") {
        Some(RgbRole::VirtualEnvFg)
    } else if scan::str_eq(name, "nixshell_bg") {
        Some(RgbRole::NixshellBg)
    } else if scan::str_eq(name, "nixshell_fg") {
        Some(RgbRole::NixshellFg)
    } else {
        None
    }
}

/// Resolves a role name to its glyph slot; `None` for an unrecognized name.
pub fn theme_index_char(name: &str) -> (r: Option<CharRole>)
    ensures
        r == char_role_of_name(name@),
{
    if scan::str_eq(name, "ssh_char") {
        Some(CharRole::SshChar)
    } else if scan::str_eq(name, "ro_char") {
        Some(CharRole::RoChar)
    } else if scan::str_eq(name, "git_ahead_char") {
        Some(CharRole::GitAheadChar)
    } else if scan::str_eq(name, "git_behind_char") {
        Some(CharRole::GitBehindChar)
    } else if scan::str_eq(name, "git_staged_char") {
        Some(CharRole::GitStagedChar)
    } else if scan::str_eq(name, "git_notstaged_char") {
        Some(CharRole::GitNotstagedChar)
    } else if scan::str_eq(name, "git_untracked_char") {
        Some(CharRole::GitUntrackedChar)
    } else if scan::str_eq(name, "git_conflicted_char") {
        Some(CharRole::GitConflictedChar)
    } else {
        None
    }
}

/// Writing a color slot changes that slot to the written value and nothing
/// else: every other color slot and every glyph slot keep their values.
pub proof fn lemma_set_rgb_effect(t: Theme, role: RgbRole, v: (u8, u8, u8))
    ensures
        spec_rgb(spec_set_rgb(t, role, v), role) == v,
        forall|r: RgbRole| r != role ==> spec_rgb(spec_set_rgb(t, role, v), r) == spec_rgb(t, r),
        forall|c: CharRole| spec_char(spec_set_rgb(t, role, v), c) == spec_char(t, c),
{
}

/// Writing a glyph slot changes that slot to the written value and nothing
/// else: every other glyph slot and every color slot keep their values.
pub proof fn lemma_set_char_effect(t: Theme, role: CharRole, c: char)
    ensures
        spec_char(spec_set_char(t, role, c), role) == c,
        forall|r: CharRole| r != role ==> spec_char(spec_set_char(t, role, c), r) == spec_char(t, r),
        forall|r: RgbRole| spec_rgb(spec_set_char(t, role, c), r) == spec_rgb(t, r),
{
}

} // verus!
