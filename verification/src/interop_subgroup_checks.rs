//! Prime-order-subgroup membership checks for points already known to lie
//! on the curve, after the endomorphism method of eprint 2021/1130: a fast
//! guard against invalid-curve and subgroup attacks.

pub mod g1;
pub mod g2;
