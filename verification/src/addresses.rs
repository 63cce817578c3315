//! Fixed addresses of the programs, markets and accounts the AMM works with.
use crate::pubkey::Pubkey;
use vstd::prelude::*;

verus! {

/// Bytes of the Exponent core program.
pub open spec fn spec_exponent_core() -> Seq<u8> {
    seq![207u8, 116u8, 238u8, 2u8, 40u8, 37u8, 87u8, 248u8, 191u8, 209u8, 204u8, 35u8, 112u8, 8u8, 76u8, 68u8, 243u8, 235u8, 174u8, 212u8, 14u8, 103u8, 246u8, 91u8, 171u8, 203u8, 67u8, 168u8, 55u8, 203u8, 162u8, 132u8]
}

/// The Exponent core program.
pub fn exponent_core() -> (r: Pubkey)
    ensures
        r@ == spec_exponent_core(),
{
    let r = Pubkey { bytes: [207, 116, 238, 2, 40, 37, 87, 248, 191, 209, 204, 35, 112, 8, 76, 68, 243, 235, 174, 212, 14, 103, 246, 91, 171, 203, 67, 168, 55, 203, 162, 132] };
    assert(r@ =~= spec_exponent_core());
    r
}

/// Bytes of the Exponent event authority.
pub open spec fn spec_exponent_event_authority() -> Seq<u8> {
    seq![27u8, 56u8, 89u8, 58u8, 104u8, 17u8, 134u8, 145u8, 59u8, 63u8, 11u8, 204u8, 89u8, 40u8, 121u8, 255u8, 168u8, 135u8, 182u8, 2u8, 140u8, 61u8, 63u8, 124u8, 34u8, 250u8, 29u8, 213u8, 222u8, 235u8, 210u8, 68u8]
}

/// The Exponent event authority.
pub fn exponent_event_authority() -> (r: Pubkey)
    ensures
        r@ == spec_exponent_event_authority(),
{
    let r = Pubkey { bytes: [27, 56, 89, 58, 104, 17, 134, 145, 59, 63, 11, 204, 89, 40, 121, 255, 168, 135, 182, 2, 140, 61, 63, 124, 34, 250, 29, 213, 222, 235, 210, 68] };
    assert(r@ =~= spec_exponent_event_authority());
    r
}

/// Bytes of the wfragSOL market.
pub open spec fn spec_wfragsol_market() -> Seq<u8> {
    seq![197u8, 134u8, 126u8, 241u8, 211u8, 157u8, 115u8, 250u8, 105u8, 43u8, 2u8, 205u8, 203u8, 209u8, 164u8, 107u8, 178u8, 77u8, 139u8, 218u8, 74u8, 41u8, 151u8, 92u8, 193u8, 39u8, 76u8, 38u8, 235u8, 223u8, 78u8, 78u8]
}

/// The wfragSOL market.
pub fn wfragsol_market() -> (r: Pubkey)
    ensures
        r@ == spec_wfragsol_market(),
{
    let r = Pubkey { bytes: [197, 134, 126, 241, 211, 157, 115, 250, 105, 43, 2, 205, 203, 209, 164, 107, 178, 77, 139, 218, 74, 41, 151, 92, 193, 39, 76, 38, 235, 223, 78, 78] };
    assert(r@ =~= spec_wfragsol_market());
    r
}

/// Bytes of the wfragSOL mint.
pub open spec fn spec_wfragsol_mint() -> Seq<u8> {
    seq![7u8, 126u8, 37u8, 121u8, 51u8, 105u8, 63u8, 201u8, 44u8, 42u8, 165u8, 169u8, 198u8, 236u8, 114u8, 253u8, 108u8, 137u8, 20u8, 9u8, 16u8, 154u8, 52u8, 40u8, 12u8, 154u8, 206u8, 141u8, 141u8, 137u8, 138u8, 77u8]
}

/// The wfragSOL mint.
pub fn wfragsol_mint() -> (r: Pubkey)
    ensures
        r@ == spec_wfragsol_mint(),
{
    let r = Pubkey { bytes: [7, 126, 37, 121, 51, 105, 63, 201, 44, 42, 165, 169, 198, 236, 114, 253, 108, 137, 20, 9, 16, 154, 52, 40, 12, 154, 206, 141, 141, 137, 138, 77] };
    assert(r@ =~= spec_wfragsol_mint());
    r
}

/// Bytes of the fragmetric fund account behind wfragSOL.
pub open spec fn spec_wfragsol_fund_account() -> Seq<u8> {
    seq![36u8, 116u8, 255u8, 20u8, 195u8, 248u8, 209u8, 242u8, 92u8, 242u8, 213u8, 64u8, 58u8, 140u8, 170u8, 94u8, 62u8, 81u8, 63u8, 154u8, 24u8, 89u8, 171u8, 81u8, 249u8, 56u8, 178u8, 213u8, 46u8, 142u8, 93u8, 110u8]
}

/// The fragmetric fund account behind wfragSOL.
pub fn wfragsol_fund_account() -> (r: Pubkey)
    ensures
        r@ == spec_wfragsol_fund_account(),
{
    let r = Pubkey { bytes: [36, 116, 255, 20, 195, 248, 209, 242, 92, 242, 213, 64, 58, 140, 170, 94, 62, 81, 63, 154, 24, 89, 171, 81, 249, 56, 178, 213, 46, 142, 93, 110] };
    assert(r@ =~= spec_wfragsol_fund_account());
    r
}

/// Bytes of the SY meta account of wfragSOL.
pub open spec fn spec_wfragsol_sy_meta_address() -> Seq<u8> {
    seq![1u8, 217u8, 251u8, 79u8, 48u8, 69u8, 111u8, 53u8, 213u8, 122u8, 125u8, 43u8, 203u8, 140u8, 176u8, 194u8, 129u8, 73u8, 142u8, 50u8, 225u8, 130u8, 34u8, 223u8, 231u8, 191u8, 184u8, 63u8, 225u8, 243u8, 211u8, 181u8]
}

/// The SY meta account of wfragSOL.
pub fn wfragsol_sy_meta_address() -> (r: Pubkey)
    ensures
        r@ == spec_wfragsol_sy_meta_address(),
{
    let r = Pubkey { bytes: [1, 217, 251, 79, 48, 69, 111, 53, 213, 122, 125, 43, 203, 140, 176, 194, 129, 73, 142, 50, 225, 130, 34, 223, 231, 191, 184, 63, 225, 243, 211, 181] };
    assert(r@ =~= spec_wfragsol_sy_meta_address());
    r
}

/// Bytes of the kySOL market.
pub open spec fn spec_kysol_market() -> Seq<u8> {
    seq![43u8, 246u8, 190u8, 35u8, 142u8, 192u8, 238u8, 199u8, 56u8, 155u8, 90u8, 56u8, 79u8, 146u8, 80u8, 37u8, 10u8, 10u8, 120u8, 177u8, 60u8, 164u8, 176u8, 151u8, 250u8, 16u8, 252u8, 224u8, 151u8, 47u8, 29u8, 179u8]
}

/// The kySOL market.
pub fn kysol_market() -> (r: Pubkey)
    ensures
        r@ == spec_kysol_market(),
{
    let r = Pubkey { bytes: [43, 246, 190, 35, 142, 192, 238, 199, 56, 155, 90, 56, 79, 146, 80, 37, 10, 10, 120, 177, 60, 164, 176, 151, 250, 16, 252, 224, 151, 47, 29, 179] };
    assert(r@ =~= spec_kysol_market());
    r
}

/// Bytes of the kySOL mint.
pub open spec fn spec_kysol_mint() -> Seq<u8> {
    seq![11u8, 67u8, 204u8, 10u8, 45u8, 211u8, 240u8, 162u8, 243u8, 188u8, 36u8, 185u8, 201u8, 177u8, 114u8, 138u8, 210u8, 23u8, 121u8, 207u8, 97u8, 228u8, 138u8, 32u8, 249u8, 16u8, 113u8, 92u8, 170u8, 130u8, 251u8, 122u8]
}

/// The kySOL mint.
pub fn kysol_mint() -> (r: Pubkey)
    ensures
        r@ == spec_kysol_mint(),
{
    let r = Pubkey { bytes: [11, 67, 204, 10, 45, 211, 240, 162, 243, 188, 36, 185, 201, 177, 114, 138, 210, 23, 121, 207, 97, 228, 138, 32, 249, 16, 113, 92, 170, 130, 251, 122] };
    assert(r@ =~= spec_kysol_mint());
    r
}

/// Bytes of the SY meta account of kySOL.
pub open spec fn spec_kysol_sy_meta_address() -> Seq<u8> {
    seq![57u8, 230u8, 195u8, 170u8, 183u8, 3u8, 18u8, 211u8, 147u8, 97u8, 209u8, 154u8, 124u8, 176u8, 132u8, 248u8, 225u8, 68u8, 34u8, 5u8, 39u8, 181u8, 214u8, 160u8, 233u8, 155u8, 219u8, 185u8, 31u8, 161u8, 86u8, 78u8]
}

/// The SY meta account of kySOL.
pub fn kysol_sy_meta_address() -> (r: Pubkey)
    ensures
        r@ == spec_kysol_sy_meta_address(),
{
    let r = Pubkey { bytes: [57, 230, 195, 170, 183, 3, 18, 211, 147, 97, 209, 154, 124, 176, 132, 248, 225, 68, 34, 5, 39, 181, 214, 160, 233, 155, 219, 185, 31, 161, 86, 78] };
    assert(r@ =~= spec_kysol_sy_meta_address());
    r
}

/// Bytes of the Jito stake pool.
pub open spec fn spec_jito_stake_pool() -> Seq<u8> {
    seq![4u8, 138u8, 62u8, 8u8, 195u8, 180u8, 149u8, 190u8, 23u8, 244u8, 84u8, 39u8, 216u8, 155u8, 236u8, 91u8, 128u8, 199u8, 226u8, 105u8, 92u8, 24u8, 100u8, 215u8, 103u8, 67u8, 219u8, 57u8, 190u8, 211u8, 70u8, 214u8]
}

/// The Jito stake pool.
pub fn jito_stake_pool() -> (r: Pubkey)
    ensures
        r@ == spec_jito_stake_pool(),
{
    let r = Pubkey { bytes: [4, 138, 62, 8, 195, 180, 149, 190, 23, 244, 84, 39, 216, 155, 236, 91, 128, 199, 226, 105, 92, 24, 100, 215, 103, 67, 219, 57, 190, 211, 70, 214] };
    assert(r@ =~= spec_jito_stake_pool());
    r
}

/// Bytes of the Jito restaking vault behind kySOL.
pub open spec fn spec_jito_vault() -> Seq<u8> {
    seq![2u8, 236u8, 84u8, 79u8, 71u8, 13u8, 201u8, 57u8, 244u8, 205u8, 140u8, 186u8, 241u8, 166u8, 160u8, 92u8, 244u8, 232u8, 107u8, 94u8, 254u8, 128u8, 211u8, 85u8, 44u8, 156u8, 61u8, 74u8, 190u8, 109u8, 191u8, 39u8]
}

/// The Jito restaking vault behind kySOL.
pub fn jito_vault() -> (r: Pubkey)
    ensures
        r@ == spec_jito_vault(),
{
    let r = Pubkey { bytes: [2, 236, 84, 79, 71, 13, 201, 57, 244, 205, 140, 186, 241, 166, 160, 92, 244, 232, 107, 94, 254, 128, 211, 85, 44, 156, 61, 74, 190, 109, 191, 39] };
    assert(r@ =~= spec_jito_vault());
    r
}

/// Bytes of the JTO mint.
pub open spec fn spec_jito_token_mint() -> Seq<u8> {
    seq![10u8, 252u8, 248u8, 150u8, 139u8, 141u8, 171u8, 136u8, 72u8, 30u8, 45u8, 42u8, 230u8, 137u8, 201u8, 82u8, 199u8, 87u8, 174u8, 186u8, 100u8, 62u8, 57u8, 25u8, 232u8, 159u8, 46u8, 85u8, 121u8, 92u8, 118u8, 193u8]
}

/// The JTO mint.
pub fn jito_token_mint() -> (r: Pubkey)
    ensures
        r@ == spec_jito_token_mint(),
{
    let r = Pubkey { bytes: [10, 252, 248, 150, 139, 141, 171, 136, 72, 30, 45, 42, 230, 137, 201, 82, 199, 87, 174, 186, 100, 62, 57, 25, 232, 159, 46, 85, 121, 92, 118, 193] };
    assert(r@ =~= spec_jito_token_mint());
    r
}

/// Bytes of the SPL token program.
pub open spec fn spec_token_program() -> Seq<u8> {
    seq![6u8, 221u8, 246u8, 225u8, 215u8, 101u8, 161u8, 147u8, 217u8, 203u8, 225u8, 70u8, 206u8, 235u8, 121u8, 172u8, 28u8, 180u8, 133u8, 237u8, 95u8, 91u8, 55u8, 145u8, 58u8, 140u8, 245u8, 133u8, 126u8, 255u8, 0u8, 169u8]
}

/// The SPL token program.
pub fn token_program() -> (r: Pubkey)
    ensures
        r@ == spec_token_program(),
{
    let r = Pubkey { bytes: [6, 221, 246, 225, 215, 101, 161, 147, 217, 203, 225, 70, 206, 235, 121, 172, 28, 180, 133, 237, 95, 91, 55, 145, 58, 140, 245, 133, 126, 255, 0, 169] };
    assert(r@ =~= spec_token_program());
    r
}

} // verus!
