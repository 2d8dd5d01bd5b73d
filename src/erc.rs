use vstd::prelude::*;

verus! {

/// The kind of token contract an indexer follows.
#[derive(Clone, Copy, Debug, PartialEq, Eq, Structural)]
pub enum ErcType {
    ERC20,
    ERC721,
}

/// A string that names no ERC type.
#[derive(Clone, Debug)]
pub struct InvalidErcType {
    pub input: String,
}

/// What `str::to_lowercase` makes of a string.
pub uninterp spec fn lower_of(s: Seq<char>) -> Seq<char>;

/// Relies on `str::to_lowercase`: its result depends on the characters alone.
#[verifier::external_body]
fn lowercase(s: &str) -> (r: String)
    ensures
        r@ == lower_of(s@),
{
    s.to_lowercase()
}

/// The ERC type that an already lower-cased name stands for.
pub open spec fn erc_type_of(lowered: Seq<char>) -> Option<ErcType> {
    if lowered == "erc20"@ {
        Some(ErcType::ERC20)
    } else if lowered == "erc721"@ {
        Some(ErcType::ERC721)
    } else {
        None
    }
}

/// Reads an ERC type from a name that is already lower case.
pub fn erc_type_from_lowered(lowered: &str) -> (r: Option<ErcType>)
    ensures
        r == erc_type_of(lowered@),
{
    let s = lowered.to_string();
    if s == "erc20".to_string() {
        Some(ErcType::ERC20)
    } else if s == "erc721".to_string() {
        Some(ErcType::ERC721)
    } else {
        None
    }
}

impl ErcType {
    /// The canonical name of the type.
    pub open spec fn name(self) -> Seq<char> {
        match self {
            ErcType::ERC20 => "ERC20"@,
            ErcType::ERC721 => "ERC721"@,
        }
    }

    /// Reads an ERC type, ignoring case: `erc20` and `erc721` in any mix of
    /// cases, nothing else.
    pub fn parse(input: &str) -> (r: Result<ErcType, InvalidErcType>)
        ensures
            match erc_type_of(lower_of(input@)) {
                Some(t) => r == Ok::<ErcType, InvalidErcType>(t),
                None => r is Err && r->Err_0.input@ == input@,
            },
    {
        let lowered = lowercase(input);
        match erc_type_from_lowered(lowered.as_str()) {
            Some(t) => Ok(t),
            None => Err(InvalidErcType { input: input.to_string() }),
        }
    }

    pub fn to_string(&self) -> (r: String)
        ensures
            r@ == self.name(),
    {
        match self {
            ErcType::ERC20 => "ERC20".to_string(),
            ErcType::ERC721 => "ERC721".to_string(),
        }
    }
}

impl Default for ErcType {
    fn default() -> (r: ErcType)
        ensures
            r == ErcType::ERC20,
    {
        ErcType::ERC20
    }
}

impl std::str::FromStr for ErcType {
    type Err = InvalidErcType;

    fn from_str(input: &str) -> (r: Result<ErcType, InvalidErcType>)
        ensures
            match erc_type_of(lower_of(input@)) {
                Some(t) => r == Ok::<ErcType, InvalidErcType>(t),
                None => r is Err && r->Err_0.input@ == input@,
            },
    {
        ErcType::parse(input)
    }
}

} // verus!
