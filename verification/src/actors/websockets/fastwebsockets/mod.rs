pub mod pipeline_message_counter;
pub mod read_frame_processor_actor;
pub mod web_socket_actor;
