use vstd::prelude::*;

pub mod widgets;
pub mod suspend_dialog;
pub mod help_dialog;
pub mod paths;
pub mod file_explorer;
pub mod tool_picker;
pub mod app;
pub mod key_actions;
pub mod main_view;
pub mod session;
pub mod text;
pub mod git_scm;
pub mod events;
pub mod keybindings;
pub mod question_parser;
pub mod tool;
pub mod memory;
pub mod memory_file;
pub mod monitor;
pub mod agent_pool;
pub mod task_manager;
pub mod ask;
pub mod help_content;
pub mod hotkey_content;
pub mod paste;
pub mod tool_output;
pub mod main_loop;
pub mod viewers;
pub mod approval_dialog;
pub mod sudo_dialog;
pub mod plan_mode;
pub mod commands;
pub mod find_replace_keys;

verus! {

} // verus!
