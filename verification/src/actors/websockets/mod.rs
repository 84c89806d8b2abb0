pub mod fastwebsockets;
