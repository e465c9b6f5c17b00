// Structured extraction for the direct command generator: one info record
// per target operation, recovered by walking the statement model.

pub mod common;
pub mod delete_ops;
pub mod hash_ops;
pub mod insert_ops;
pub mod join_ops;
pub mod list_ops;
pub mod query_extractors;
pub mod set_ops;
pub mod string_ops;
pub mod zset_ops;

pub use common::{ConditionValue, determine_table_type, extract_complex_conditions,
    extract_key_from_condition};
pub use delete_ops::{DeleteCommandInfo, extract_delete_command};
pub use hash_ops::{HashGetAllInfo, HashGetInfo, HashMultiGetInfo, extract_hash_get,
    extract_hash_getall, extract_hash_multi_get};
pub use insert_ops::{InsertCommandInfo, extract_insert_command};
pub use join_ops::extract_join_info;
pub use list_ops::{ListGetAllInfo, ListGetRangeInfo, ListIndexInfo, extract_list_get_index,
    extract_list_get_range, extract_list_getall, extract_list_index};
pub use query_extractors::{extract_selected_fields, extract_table_and_key, get_expr_from_query,
    is_ordered_desc};
pub use set_ops::{SetGetAllInfo, SetMemberInfo, extract_set_getall, extract_set_ismember,
    extract_set_member};
pub use string_ops::{StringGetInfo, StringSetInfo, extract_string_get};
pub use zset_ops::{ZSetGetAllInfo, ZSetGetReversedInfo, ZSetScoreRangeInfo, extract_score_range,
    extract_zset_get_reversed, extract_zset_get_score_range, extract_zset_getall};
