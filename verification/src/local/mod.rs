pub mod local_client;
