pub mod dispatcher_queue;
