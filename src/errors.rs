use vstd::prelude::*;

verus! {

/// Every way an operation of the program can fail.
#[derive(Clone, Copy, Debug, PartialEq, Eq, Structural)]
pub enum VoucherNftError {
    OnlyAdmin,
    OnlyOperator,
    InvalidAccountArgument,
    AccountNotInitialized,
    AuthoratorNotSigned,
    VaultNotSigned,
    InvalidDiscountPercentage,
    InvalidMaximumAmount,
    StartTimeAfterEndTime,
    StartTimeBeforeCurrentTime,
    SeedTooLong,
    InvalidNftMint,
    AlreadyInitialized,
    AccountAlreadyInUse,
}

/// The broad class that an error belongs to.
#[derive(Clone, Copy, Debug, PartialEq, Eq, Structural)]
pub enum ErrorKind {
    /// The caller is not the stored authority.
    Authorization,
    /// A supplied record failed re-derivation or its creator checks.
    Integrity,
    /// A caller-supplied parameter breaks a stated invariant.
    Validation,
    /// A record that must be created once already exists.
    Existence,
}

pub open spec fn spec_error_kind(e: VoucherNftError) -> ErrorKind {
    match e {
        VoucherNftError::OnlyAdmin | VoucherNftError::OnlyOperator => ErrorKind::Authorization,
        VoucherNftError::InvalidAccountArgument | VoucherNftError::AccountNotInitialized
        | VoucherNftError::AuthoratorNotSigned | VoucherNftError::VaultNotSigned => ErrorKind::Integrity,
        VoucherNftError::AlreadyInitialized | VoucherNftError::AccountAlreadyInUse => ErrorKind::Existence,
        _ => ErrorKind::Validation,
    }
}

pub open spec fn spec_error_code(e: VoucherNftError) -> u32 {
    match e {
        VoucherNftError::OnlyAdmin => 6000,
        VoucherNftError::OnlyOperator => 6001,
        VoucherNftError::InvalidAccountArgument => 6002,
        VoucherNftError::AccountNotInitialized => 6003,
        VoucherNftError::AuthoratorNotSigned => 6004,
        VoucherNftError::VaultNotSigned => 6005,
        VoucherNftError::InvalidDiscountPercentage => 6006,
        VoucherNftError::InvalidMaximumAmount => 6007,
        VoucherNftError::StartTimeAfterEndTime => 6008,
        VoucherNftError::StartTimeBeforeCurrentTime => 6009,
        VoucherNftError::SeedTooLong => 6010,
        VoucherNftError::InvalidNftMint => 6011,
        VoucherNftError::AlreadyInitialized => 6012,
        VoucherNftError::AccountAlreadyInUse => 6013,
    }
}

impl VoucherNftError {
    /// The numeric code reported to callers: 6000 for the first variant, one
    /// more for each after it.
    pub fn code(&self) -> (r: u32)
        ensures
            r == spec_error_code(*self),
    {
        match self {
            VoucherNftError::OnlyAdmin => 6000,
            VoucherNftError::OnlyOperator => 6001,
            VoucherNftError::InvalidAccountArgument => 6002,
            VoucherNftError::AccountNotInitialized => 6003,
            VoucherNftError::AuthoratorNotSigned => 6004,
            VoucherNftError::VaultNotSigned => 6005,
            VoucherNftError::InvalidDiscountPercentage => 6006,
            VoucherNftError::InvalidMaximumAmount => 6007,
            VoucherNftError::StartTimeAfterEndTime => 6008,
            VoucherNftError::StartTimeBeforeCurrentTime => 6009,
            VoucherNftError::SeedTooLong => 6010,
            VoucherNftError::InvalidNftMint => 6011,
            VoucherNftError::AlreadyInitialized => 6012,
            VoucherNftError::AccountAlreadyInUse => 6013,
        }
    }

    /// The class of this error.
    pub fn kind(&self) -> (r: ErrorKind)
        ensures
            r == spec_error_kind(*self),
    {
        match self {
            VoucherNftError::OnlyAdmin | VoucherNftError::OnlyOperator => ErrorKind::Authorization,
            VoucherNftError::InvalidAccountArgument | VoucherNftError::AccountNotInitialized
            | VoucherNftError::AuthoratorNotSigned | VoucherNftError::VaultNotSigned => ErrorKind::Integrity,
            VoucherNftError::AlreadyInitialized | VoucherNftError::AccountAlreadyInUse => ErrorKind::Existence,
            _ => ErrorKind::Validation,
        }
    }

    /// The human-readable message of this error.
    pub fn message(&self) -> (r: &'static str)
        ensures
            r@ == spec_error_message(*self),
    {
        match self {
            VoucherNftError::OnlyAdmin => "Only Admin",
            VoucherNftError::OnlyOperator => "Only Operator",
            VoucherNftError::InvalidAccountArgument => "Invalid Account Argument",
            VoucherNftError::AccountNotInitialized => "Account Not Initialized",
            VoucherNftError::AuthoratorNotSigned => "Authorator Not Signed",
            VoucherNftError::VaultNotSigned => "Vault Not Signed",
            VoucherNftError::InvalidDiscountPercentage => "Invalid Discount Percentage",
            VoucherNftError::InvalidMaximumAmount => "Invalid Maximum Amount",
            VoucherNftError::StartTimeAfterEndTime => "StartTime After EndTime",
            VoucherNftError::StartTimeBeforeCurrentTime => "StartTime Before CurrentTime",
            VoucherNftError::SeedTooLong => "Seed Too Long",
            VoucherNftError::InvalidNftMint => "Invalid Nft Mint",
            VoucherNftError::AlreadyInitialized => "Already Initialized",
            VoucherNftError::AccountAlreadyInUse => "Account Already In Use",
        }
    }
}

pub open spec fn spec_error_message(e: VoucherNftError) -> Seq<char> {
    match e {
        VoucherNftError::OnlyAdmin => "Only Admin"@,
        VoucherNftError::OnlyOperator => "Only Operator"@,
        VoucherNftError::InvalidAccountArgument => "Invalid Account Argument"@,
        VoucherNftError::AccountNotInitialized => "Account Not Initialized"@,
        VoucherNftError::AuthoratorNotSigned => "Authorator Not Signed"@,
        VoucherNftError::VaultNotSigned => "Vault Not Signed"@,
        VoucherNftError::InvalidDiscountPercentage => "Invalid Discount Percentage"@,
        VoucherNftError::InvalidMaximumAmount => "Invalid Maximum Amount"@,
        VoucherNftError::StartTimeAfterEndTime => "StartTime After EndTime"@,
        VoucherNftError::StartTimeBeforeCurrentTime => "StartTime Before CurrentTime"@,
        VoucherNftError::SeedTooLong => "Seed Too Long"@,
        VoucherNftError::InvalidNftMint => "Invalid Nft Mint"@,
        VoucherNftError::AlreadyInitialized => "Already Initialized"@,
        VoucherNftError::AccountAlreadyInUse => "Account Already In Use"@,
    }
}

} // verus!
