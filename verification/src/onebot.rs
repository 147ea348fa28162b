pub mod onebot_pylon;
pub mod protocol;
