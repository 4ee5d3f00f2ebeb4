//! Names of deployment regions and of tables.

use vstd::prelude::*;
use crate::text::{contains_char, owned};

verus! {

/// A region is well formed when it is longer than five characters and holds
/// the `-` separator (`us-east-1`, `sa-east-1`).
pub open spec fn is_region_name(s: Seq<char>) -> bool {
    s.len() > 5 && s.contains('-')
}

/// Whether `region` has the shape of a provider region name (`us-east-1`).
pub fn validate_region(region: &str) -> (r: bool)
    ensures
        r == is_region_name(region@),
{
    region.unicode_len() > 5 && contains_char(region, '-')
}

/// The name of a deployment location.
#[derive(Debug, Clone, PartialEq)]
pub struct AwsRegion(pub String);

impl View for AwsRegion {
    type V = Seq<char>;

    open spec fn view(&self) -> Seq<char> {
        self.0@
    }
}

impl AwsRegion {
    pub fn new(region: &str) -> (r: AwsRegion)
        ensures
            r@ == region@,
    {
        AwsRegion(owned(region))
    }

    pub fn as_str(&self) -> (r: &str)
        ensures
            r@ == self@,
    {
        self.0.as_str()
    }

    /// The primary region used when a request names none.
    pub fn default_source() -> (r: AwsRegion)
        ensures
            r@ == "us-east-1"@,
    {
        AwsRegion::new("us-east-1")
    }

    /// The disaster-recovery region used when a request names none.
    pub fn default_target() -> (r: AwsRegion)
        ensures
            r@ == "us-west-2"@,
    {
        AwsRegion::new("us-west-2")
    }
}

impl Default for AwsRegion {
    fn default() -> (r: AwsRegion)
        ensures
            r@ == "us-east-1"@,
    {
        AwsRegion::default_source()
    }
}

/// The name of a logical table.
#[derive(Debug, Clone, PartialEq)]
pub struct TableName(pub String);

impl View for TableName {
    type V = Seq<char>;

    open spec fn view(&self) -> Seq<char> {
        self.0@
    }
}

impl TableName {
    pub fn new(name: &str) -> (r: TableName)
        ensures
            r@ == name@,
    {
        TableName(owned(name))
    }

    pub fn as_str(&self) -> (r: &str)
        ensures
            r@ == self@,
    {
        self.0.as_str()
    }
}

} // verus!
