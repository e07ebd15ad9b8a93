//! Front-end state for a remote-core text editor: a line cache kept in sync
//! by incremental update operations, an RPC client with correlation ids, and
//! the viewport bookkeeping for virtualized scrolling.

pub mod edit_view;
pub mod graph;
pub mod json;
pub mod linecache;
pub mod menus;
pub mod protocol;
pub mod rpc;
pub mod textline;
pub mod transport;
pub mod util;

