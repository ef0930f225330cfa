//! Selectors that several requests share.

use vstd::prelude::*;

verus! {

/// A canned access-control list for a bucket.
#[derive(Clone, Copy, Debug, PartialEq, Eq, Structural)]
pub enum PredefinedBucketAcl {
    Unspecified,
    BucketAclAuthenticatedRead,
    BucketAclPrivate,
    BucketAclProjectPrivate,
    BucketAclPublicRead,
    BucketAclPublicReadWrite,
}

/// A canned access-control list for an object.
#[derive(Clone, Copy, Debug, PartialEq, Eq, Structural)]
pub enum PredefinedObjectAcl {
    Unspecified,
    ObjectAclAuthenticatedRead,
    ObjectAclBucketOwnerFullControl,
    ObjectAclBucketOwnerRead,
    ObjectAclPrivate,
    ObjectAclProjectPrivate,
    ObjectAclPublicRead,
}

/// How much of a resource's metadata a response carries.
#[derive(Clone, Copy, Debug, PartialEq, Eq, Structural)]
pub enum Projection {
    Unspecified,
    NoAcl,
    Full,
}

impl PredefinedBucketAcl {
    /// The variant with the wire number `value`, if there is one.
    pub open spec fn of(value: i32) -> Option<PredefinedBucketAcl> {
        if value == 0 {
            Some(PredefinedBucketAcl::Unspecified)
        } else if value == 1 {
            Some(PredefinedBucketAcl::BucketAclAuthenticatedRead)
        } else if value == 2 {
            Some(PredefinedBucketAcl::BucketAclPrivate)
        } else if value == 3 {
            Some(PredefinedBucketAcl::BucketAclProjectPrivate)
        } else if value == 4 {
            Some(PredefinedBucketAcl::BucketAclPublicRead)
        } else if value == 5 {
            Some(PredefinedBucketAcl::BucketAclPublicReadWrite)
        } else {
            None
        }
    }

    /// The variant with the wire number `value`, if there is one.
    pub fn from_i32(value: i32) -> (variant: Option<PredefinedBucketAcl>)
        ensures
            variant == Self::of(value),
    {
        match value {
            0 => Some(PredefinedBucketAcl::Unspecified),
            1 => Some(PredefinedBucketAcl::BucketAclAuthenticatedRead),
            2 => Some(PredefinedBucketAcl::BucketAclPrivate),
            3 => Some(PredefinedBucketAcl::BucketAclProjectPrivate),
            4 => Some(PredefinedBucketAcl::BucketAclPublicRead),
            5 => Some(PredefinedBucketAcl::BucketAclPublicReadWrite),
            _ => None,
        }
    }

    /// The wire number of the variant.
    pub fn number(self) -> (value: i32)
        ensures
            Self::of(value) == Some(self),
    {
        match self {
            PredefinedBucketAcl::Unspecified => 0,
            PredefinedBucketAcl::BucketAclAuthenticatedRead => 1,
            PredefinedBucketAcl::BucketAclPrivate => 2,
            PredefinedBucketAcl::BucketAclProjectPrivate => 3,
            PredefinedBucketAcl::BucketAclPublicRead => 4,
            PredefinedBucketAcl::BucketAclPublicReadWrite => 5,
        }
    }

    /// The query value of the variant; `Unspecified` has none.
    pub open spec fn literal(self) -> Option<Seq<char>> {
        match self {
            PredefinedBucketAcl::Unspecified => None,
            PredefinedBucketAcl::BucketAclAuthenticatedRead => Some("authenticatedRead"@),
            PredefinedBucketAcl::BucketAclPrivate => Some("private"@),
            PredefinedBucketAcl::BucketAclProjectPrivate => Some("projectPrivate"@),
            PredefinedBucketAcl::BucketAclPublicRead => Some("publicRead"@),
            PredefinedBucketAcl::BucketAclPublicReadWrite => Some("publicReadWrite"@),
        }
    }
}

impl PredefinedObjectAcl {
    /// The variant with the wire number `value`, if there is one.
    pub open spec fn of(value: i32) -> Option<PredefinedObjectAcl> {
        if value == 0 {
            Some(PredefinedObjectAcl::Unspecified)
        } else if value == 1 {
            Some(PredefinedObjectAcl::ObjectAclAuthenticatedRead)
        } else if value == 2 {
            Some(PredefinedObjectAcl::ObjectAclBucketOwnerFullControl)
        } else if value == 3 {
            Some(PredefinedObjectAcl::ObjectAclBucketOwnerRead)
        } else if value == 4 {
            Some(PredefinedObjectAcl::ObjectAclPrivate)
        } else if value == 5 {
            Some(PredefinedObjectAcl::ObjectAclProjectPrivate)
        } else if value == 6 {
            Some(PredefinedObjectAcl::ObjectAclPublicRead)
        } else {
            None
        }
    }

    /// The variant with the wire number `value`, if there is one.
    pub fn from_i32(value: i32) -> (variant: Option<PredefinedObjectAcl>)
        ensures
            variant == Self::of(value),
    {
        match value {
            0 => Some(PredefinedObjectAcl::Unspecified),
            1 => Some(PredefinedObjectAcl::ObjectAclAuthenticatedRead),
            2 => Some(PredefinedObjectAcl::ObjectAclBucketOwnerFullControl),
            3 => Some(PredefinedObjectAcl::ObjectAclBucketOwnerRead),
            4 => Some(PredefinedObjectAcl::ObjectAclPrivate),
            5 => Some(PredefinedObjectAcl::ObjectAclProjectPrivate),
            6 => Some(PredefinedObjectAcl::ObjectAclPublicRead),
            _ => None,
        }
    }

    /// The wire number of the variant.
    pub fn number(self) -> (value: i32)
        ensures
            Self::of(value) == Some(self),
    {
        match self {
            PredefinedObjectAcl::Unspecified => 0,
            PredefinedObjectAcl::ObjectAclAuthenticatedRead => 1,
            PredefinedObjectAcl::ObjectAclBucketOwnerFullControl => 2,
            PredefinedObjectAcl::ObjectAclBucketOwnerRead => 3,
            PredefinedObjectAcl::ObjectAclPrivate => 4,
            PredefinedObjectAcl::ObjectAclProjectPrivate => 5,
            PredefinedObjectAcl::ObjectAclPublicRead => 6,
        }
    }

    /// The query value of the variant; `Unspecified` has none.
    pub open spec fn literal(self) -> Option<Seq<char>> {
        match self {
            PredefinedObjectAcl::Unspecified => None,
            PredefinedObjectAcl::ObjectAclAuthenticatedRead => Some("authenticatedRead"@),
            PredefinedObjectAcl::ObjectAclBucketOwnerFullControl => Some(
                "bucketOwnerFullControl"@,
            ),
            PredefinedObjectAcl::ObjectAclBucketOwnerRead => Some("bucketOwnerRead"@),
            PredefinedObjectAcl::ObjectAclPrivate => Some("private"@),
            PredefinedObjectAcl::ObjectAclProjectPrivate => Some("projectPrivate"@),
            PredefinedObjectAcl::ObjectAclPublicRead => Some("publicRead"@),
        }
    }
}

impl Projection {
    /// The variant with the wire number `value`, if there is one.
    pub open spec fn of(value: i32) -> Option<Projection> {
        if value == 0 {
            Some(Projection::Unspecified)
        } else if value == 1 {
            Some(Projection::NoAcl)
        } else if value == 2 {
            Some(Projection::Full)
        } else {
            None
        }
    }

    /// The variant with the wire number `value`, if there is one.
    pub fn from_i32(value: i32) -> (variant: Option<Projection>)
        ensures
            variant == Self::of(value),
    {
        match value {
            0 => Some(Projection::Unspecified),
            1 => Some(Projection::NoAcl),
            2 => Some(Projection::Full),
            _ => None,
        }
    }

    /// The wire number of the variant.
    pub fn number(self) -> (value: i32)
        ensures
            Self::of(value) == Some(self),
    {
        match self {
            Projection::Unspecified => 0,
            Projection::NoAcl => 1,
            Projection::Full => 2,
        }
    }

    /// The query value of the variant; `Unspecified` has none.
    pub open spec fn literal(self) -> Option<Seq<char>> {
        match self {
            Projection::Unspecified => None,
            Projection::NoAcl => Some("noAcl"@),
            Projection::Full => Some("full"@),
        }
    }
}

} // verus!
