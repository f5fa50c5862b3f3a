//! Verified core of the Isotonic lending protocol: fixed-point arithmetic,
//! interest accrual, credit lines, and the decision logic of the market,
//! credit agency and price oracle contracts.

pub mod decimal;
pub mod coin;
pub mod token;
pub mod interest;
pub mod market;
pub mod credit_line;
pub mod price;
pub mod oracle;
pub mod utils;
pub mod credit_agency;
pub mod lendex;
pub mod reply;
