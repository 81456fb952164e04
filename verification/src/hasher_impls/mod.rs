pub mod argon2id;
pub mod bcrypt;
pub mod encoded;
