use vstd::prelude::*;
use crate::trading::Position;

verus! {

/// Settings of one trading process.
#[derive(Clone, Debug)]
pub struct Config {
    pub rpc_url: String,
    pub private_key: String,
    pub jupiter_api_url: String,
    pub slippage_bps: u16,
    pub line_channel_token: String,
    pub line_user_id: String,
    pub sol_mint: String,
    pub usdc_mint: String,
    pub port: u16,
    pub gcp_project_id: String,
    pub data_retention_days: u32,
}

impl Config {
    /// The mint address of an asset.
    pub open spec fn mint(&self, asset: Position) -> String {
        match asset {
            Position::SOL => self.sol_mint,
            Position::USDC => self.usdc_mint,
        }
    }

    pub fn mint_of(&self, asset: Position) -> (r: String)
        ensures
            r == self.mint(asset),
    {
        match asset {
            Position::SOL => self.sol_mint.clone(),
            Position::USDC => self.usdc_mint.clone(),
        }
    }
}

} // verus!
