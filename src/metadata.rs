//! The collection's fixed texts: its name and symbol, and each orbital's
//! traits and image address.

use vstd::prelude::*;

verus! {

/// Number of orbitals that carry traits and an image.
pub const DOGI_COUNT: u128 = 5;

pub const NAME: &'static str = "Giga Dogi";

pub const SYMBOL: &'static str = "giga-dogi";

pub const DOGI_ATTRIBUTES_0: &'static str = r#"{"attributes": [
        {"trait_type": "Background", "value": "Cosmic Purple"},
        {"trait_type": "Body", "value": "Golden Shiba"},
        {"trait_type": "Eyes", "value": "Laser Blue"},
        {"trait_type": "Accessory", "value": "Diamond Chain"},
        {"trait_type": "Rarity", "value": "Legendary"}
      ]}"#;

pub const DOGI_ATTRIBUTES_1: &'static str = r#"{"attributes": [
        {"trait_type": "Background", "value": "Neon Green"},
        {"trait_type": "Body", "value": "Silver Shiba"},
        {"trait_type": "Eyes", "value": "Fire Red"},
        {"trait_type": "Accessory", "value": "Bitcoin Crown"},
        {"trait_type": "Rarity", "value": "Epic"}
      ]}"#;

pub const DOGI_ATTRIBUTES_2: &'static str = r#"{"attributes": [
        {"trait_type": "Background", "value": "Electric Blue"},
        {"trait_type": "Body", "value": "Rainbow Shiba"},
        {"trait_type": "Eyes", "value": "Galaxy Purple"},
        {"trait_type": "Accessory", "value": "Rocket Pack"},
        {"trait_type": "Rarity", "value": "Rare"}
      ]}"#;

pub const DOGI_ATTRIBUTES_3: &'static str = r#"{"attributes": [
        {"trait_type": "Background", "value": "Sunset Orange"},
        {"trait_type": "Body", "value": "Cyber Shiba"},
        {"trait_type": "Eyes", "value": "Neon Green"},
        {"trait_type": "Accessory", "value": "Holographic Collar"},
        {"trait_type": "Rarity", "value": "Uncommon"}
      ]}"#;

pub const DOGI_ATTRIBUTES_4: &'static str = r#"{"attributes": [
        {"trait_type": "Background", "value": "Matrix Black"},
        {"trait_type": "Body", "value": "Platinum Shiba"},
        {"trait_type": "Eyes", "value": "Diamond White"},
        {"trait_type": "Accessory", "value": "Infinity Gauntlet"},
        {"trait_type": "Rarity", "value": "Mythic"}
      ]}"#;

pub const DOGI_URL_0: &'static str =
    "https://res.cloudinary.com/dpwvlwwf7/image/upload/t_Thumbnail/v1749684070/dogi5_iig8fx.png";

pub const DOGI_URL_1: &'static str =
    "https://res.cloudinary.com/dpwvlwwf7/image/upload/t_Thumbnail/v1749684069/dogi3_bfezed.png";

pub const DOGI_URL_2: &'static str =
    "https://res.cloudinary.com/dpwvlwwf7/image/upload/t_Thumbnail/v1749684069/dogi4_jistot.png";

pub const DOGI_URL_3: &'static str =
    "https://res.cloudinary.com/dpwvlwwf7/image/upload/t_Thumbnail/v1749684068/dogi2_gowfmy.png";

pub const DOGI_URL_4: &'static str =
    "https://res.cloudinary.com/dpwvlwwf7/image/upload/t_Thumbnail/v1749684067/dogi1_k1xpl4.png";

/// The trait text of the orbital at `index`, for `index` below `DOGI_COUNT`.
pub open spec fn dogi_attributes(index: u128) -> Seq<char> {
    if index == 0 {
        DOGI_ATTRIBUTES_0@
    } else if index == 1 {
        DOGI_ATTRIBUTES_1@
    } else if index == 2 {
        DOGI_ATTRIBUTES_2@
    } else if index == 3 {
        DOGI_ATTRIBUTES_3@
    } else {
        DOGI_ATTRIBUTES_4@
    }
}

/// The image address of the orbital at `index`, for `index` below `DOGI_COUNT`.
pub open spec fn dogi_url(index: u128) -> Seq<char> {
    if index == 0 {
        DOGI_URL_0@
    } else if index == 1 {
        DOGI_URL_1@
    } else if index == 2 {
        DOGI_URL_2@
    } else if index == 3 {
        DOGI_URL_3@
    } else {
        DOGI_URL_4@
    }
}

/// The ASCII decimal digits of `n`, most significant first.
pub open spec fn decimal(n: nat) -> Seq<u8>
    decreases n,
{
    if n < 10 {
        seq![(48 + n) as u8]
    } else {
        decimal(n / 10) + seq![(48 + n % 10) as u8]
    }
}

/// Appends the decimal digits of `n` to `out`.
pub fn push_decimal(out: &mut Vec<u8>, n: u128)
    ensures
        final(out)@ == old(out)@ + decimal(n as nat),
    decreases n,
{
    if n >= 10 {
        push_decimal(out, n / 10);
    }
    let ghost mid = out@;
    out.push((48 + n % 10) as u8);
    assert(out@ =~= mid + seq![(48 + n % 10) as u8]);
    assert(out@ =~= old(out)@ + decimal(n as nat));
}

} // verus!
