pub mod accept_bid;
pub mod accept_buyer;
pub mod accept_finalized_pools;
pub mod add_bidder;
pub mod add_buyer;
pub mod add_seller;
pub mod dealer_confirm;
pub mod dealer_reset;
pub mod disable_contract;
pub mod finalize_pools;
pub mod mint_tokens;
pub mod remove_as_seller;
pub mod rescind_bid;
pub mod rescind_finalized_pools;
pub mod update_allowed_buyers;
pub mod update_allowed_sellers;
pub mod update_face_value_cents;
pub mod update_seller_offer_hash;
