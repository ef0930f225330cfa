//! The spelling of the query parameters.

use vstd::prelude::*;

verus! {

pub const ALT: &'static str = "alt";

pub const DELIMITER: &'static str = "delimiter";

pub const DESTINATION_KMS_KEY_NAME: &'static str = "destinationKmsKeyName";

pub const DESTINATION_PREDEFINED_ACL: &'static str = "destinationPredefinedAcl";

pub const ENCRYPTION_ALGORITHM: &'static str = "x-goog-encryption-algorithm";

pub const ENCRYPTION_KEY: &'static str = "x-goog-encryption-key";

pub const ENCRYPTION_KEY_SHA256: &'static str = "x-goog-encryption-key-sha256";

pub const FIELDS: &'static str = "fields";

pub const GENERATION: &'static str = "generation";

pub const IF_GENERATION_MATCH: &'static str = "ifGenerationMatch";

pub const IF_GENERATION_NOT_MATCH: &'static str = "ifGenerationNotMatch";

pub const IF_METAGENERATION_MATCH: &'static str = "ifMetagenerationMatch";

pub const IF_METAGENERATION_NOT_MATCH: &'static str = "ifMetagenerationNotMatch";

pub const IF_SOURCE_GENERATION_MATCH: &'static str = "ifSourceGenerationMatch";

pub const IF_SOURCE_GENERATION_NOT_MATCH: &'static str = "ifSourceGenerationNotMatch";

pub const IF_SOURCE_METAGENERATION_MATCH: &'static str = "ifSourceMetagenerationMatch";

pub const IF_SOURCE_METAGENERATION_NOT_MATCH: &'static str = "ifSourceMetagenerationNotMatch";

pub const INCLUDE_TRAILING_DELIMITER: &'static str = "includeTrailingDelimiter";

pub const KMS_KEY_NAME: &'static str = "kmsKeyName";

pub const MAX_BYTES_REWRITTEN_PER_CALL: &'static str = "maxBytesRewrittenPerCall";

pub const MAX_RESULTS: &'static str = "maxResults";

pub const NAME: &'static str = "name";

pub const OPTIONS_REQUESTED_POLICY_VERSION: &'static str = "optionsRequestedPolicyVersion";

pub const PAGE_TOKEN: &'static str = "pageToken";

pub const PERMISSIONS: &'static str = "permissions";

pub const PREDEFINED_ACL: &'static str = "predefinedAcl";

pub const PREDEFINED_DEFAULT_OBJECT_ACL: &'static str = "predefinedDefaultObjectAcl";

pub const PREFIX: &'static str = "prefix";

pub const PROJECT: &'static str = "project";

pub const PROJECTION: &'static str = "projection";

pub const QUOTA_USER: &'static str = "quotaUser";

pub const REWRITE_TOKEN: &'static str = "rewriteToken";

pub const SERVICE_ACCOUNT_EMAIL: &'static str = "serviceAccountEmail";

pub const SHOW_DELETED_KEYS: &'static str = "showDeletedKeys";

pub const SOURCE_GENERATION: &'static str = "sourceGeneration";

pub const UPLOAD_TYPE: &'static str = "uploadType";

pub const VERSIONS: &'static str = "versions";

} // verus!
