pub mod bridge;
pub mod command;
pub mod entities;
pub mod from_onebot;
pub mod from_telegram;
pub mod index_service;
pub mod onebot_helper;
pub mod ratelimit;
pub mod telegram_helper;
pub mod workqueue;
