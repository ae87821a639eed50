pub mod vocabulary;
pub mod user_management;
pub mod audit;
