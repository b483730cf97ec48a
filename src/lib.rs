//! Removal-policy containers and the code around them: stacks, queues, priority
//! queues and deques behind one interface with the laws they obey, variants that
//! break that interface, and a small user-account model.
pub mod chance;
pub mod containers;
pub mod laws;
pub mod services;
pub mod text;
pub mod transistors;
pub mod users;
pub mod violations;
