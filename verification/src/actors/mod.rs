pub mod owned_frame;
pub mod read_frame_processor_actor;
pub mod render;
pub mod web_socket_actor;
pub mod web_socket_actor_messages;
pub mod websockets;
pub mod write_frame_processor_actor;
pub mod graphql_actor_message;
pub mod graphql_actor;
pub mod web_socket_interactor;
