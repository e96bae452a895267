pub mod account;
pub mod asserts;
pub mod error;
pub mod handlers;
pub mod hashing;
pub mod laws;
pub mod layout;
pub mod pda;
pub mod state;

pub use account::AccountHandle;
pub use account::Pubkey;
pub use error::ChallengeError;
pub use hashing::hash_solution;
pub use hashing::hash_solutions;
pub use state::Challenge;
pub use state::Solution;
