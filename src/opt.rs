use vstd::prelude::*;

verus! {

/// The options of a run.
#[derive(Debug)]
pub struct Opt {
    /// RPC endpoint URL.
    pub rpc: Option<String>,
    /// RPC endpoint URL for the heavy bulk queries.
    pub heavy_rpc: Option<String>,
    /// Timeout of a call, in seconds.
    pub timeout: u64,
    pub command: Command,
}

/// What a run does.
#[derive(Debug)]
pub enum Command {
    /// Work with token mints and their metadata.
    SPL { spl_subcommands: SplSubcommands },
    /// Work with metadata records directly.
    Metadata { metadata_subcommands: MetadataSubcommands },
}

/// The stages of the token-list pipeline.
#[derive(Debug, Clone, Copy, PartialEq, Eq, Structural)]
pub enum SplSubcommands {
    /// Runs every stage in turn.
    DoEverything { no_save: bool },
    /// Finds the fungible mints.
    GetMints { no_save: bool },
    /// Joins the fungible mints with their metadata.
    GetMetadataAccounts { no_save: bool },
    /// Builds the token-list entries.
    GetTokenList { no_save: bool },
    /// Splits the token list by logo URI.
    ParseTokenList { no_save: bool },
    /// Does nothing.
    DoStuff,
}

/// Commands on metadata records.
#[derive(Debug)]
pub enum MetadataSubcommands {
    /// Signs every metadata record that lists the keypair's address as an
    /// unverified creator.
    SignAll { keypair: Option<String> },
    /// Lists the metadata records that await a creator's signature.
    CountCreators { creator: String },
}

/// Commands on distribution lists.
#[derive(Debug)]
pub enum GumdropSubcommands {
    /// Writes lists of `number` recipients that each receive `amount`.
    MakeList { number: u64, amount: u64, repeat: Option<u64>, pubkey_path: Option<String> },
}

} // verus!
