pub mod init_article;
pub mod init_author;
pub mod update_article;
pub mod update_author;
