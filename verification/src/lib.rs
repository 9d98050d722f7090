//! Key management and SLH-DSA (FIPS 205) signing logic behind the `securekey` tool:
//! parameter-set resolution, key-pair containers, file signing and verification,
//! public-key export, key rotation and key-file wiping.

pub mod text;
pub mod params;
pub mod encoding;
pub mod digest;
pub mod slh;
pub mod containers;
pub mod clock;
pub mod keygen;
pub mod signing;
pub mod verifying;
pub mod export;
pub mod inspect;
pub mod rotate;
pub mod destroy;
pub mod laws;
