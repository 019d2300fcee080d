pub mod auto_disconnection;
