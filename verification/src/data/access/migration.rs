pub mod mongo;
