pub mod xdbg_adapter;
