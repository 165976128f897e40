pub mod create_campaign;
pub mod donate_to_campaign;
pub mod withdraw_from_campaign;
