pub mod action_key_handler;
