use vstd::prelude::*;

use crate::text::chars_eq;

verus! {

/// Operations of the builtin `Str` module that are written as method calls.
pub open spec fn is_str_method(ident: Seq<char>) -> bool {
    ident == "concat"@
    || ident == "is_empty"@
    || ident == "join_with"@
    || ident == "split_on"@
    || ident == "repeat"@
    || ident == "count_utf8_bytes"@
    || ident == "to_utf8"@
    || ident == "starts_with"@
    || ident == "ends_with"@
    || ident == "trim"@
    || ident == "trim_start"@
    || ident == "trim_end"@
    || ident == "to_dec"@
    || ident == "to_f64"@
    || ident == "to_f32"@
    || ident == "to_u128"@
    || ident == "to_i128"@
    || ident == "to_u64"@
    || ident == "to_i64"@
    || ident == "to_u32"@
    || ident == "to_i32"@
    || ident == "to_u16"@
    || ident == "to_i16"@
    || ident == "to_u8"@
    || ident == "to_i8"@
    || ident == "replace_each"@
    || ident == "replace_first"@
    || ident == "replace_last"@
    || ident == "split_first"@
    || ident == "split_last"@
    || ident == "walk_utf8"@
    || ident == "walk_utf8_with_index"@
    || ident == "reserve"@
    || ident == "release_excess_capacity"@
    || ident == "with_prefix"@
    || ident == "contains"@
    || ident == "drop_prefix"@
    || ident == "drop_suffix"@
    || ident == "with_ascii_lowercased"@
    || ident == "with_ascii_uppercased"@
    || ident == "caseless_ascii_equals"@
}

/// Operations of the builtin `List` module that are written as method calls.
pub open spec fn is_list_method(ident: Seq<char>) -> bool {
    ident == "is_empty"@
    || ident == "get"@
    || ident == "set"@
    || ident == "replace"@
    || ident == "update"@
    || ident == "append"@
    || ident == "append_if_ok"@
    || ident == "prepend"@
    || ident == "prepend_if_ok"@
    || ident == "map"@
    || ident == "len"@
    || ident == "walk_backwards"@
    || ident == "concat"@
    || ident == "first"@
    || ident == "single"@
    || ident == "repeat"@
    || ident == "reverse"@
    || ident == "join"@
    || ident == "keep_if"@
    || ident == "contains"@
    || ident == "sum"@
    || ident == "walk"@
    || ident == "last"@
    || ident == "keep_oks"@
    || ident == "keep_errs"@
    || ident == "map_with_index"@
    || ident == "map2"@
    || ident == "map3"@
    || ident == "product"@
    || ident == "walk_with_index"@
    || ident == "walk_until"@
    || ident == "walk_with_index_until"@
    || ident == "walk_from"@
    || ident == "walk_from_until"@
    || ident == "range"@
    || ident == "sort_with"@
    || ident == "swap"@
    || ident == "drop_at"@
    || ident == "min"@
    || ident == "max"@
    || ident == "map4"@
    || ident == "map_try"@
    || ident == "walk_try"@
    || ident == "join_map"@
    || ident == "any"@
    || ident == "take_first"@
    || ident == "take_last"@
    || ident == "drop_first"@
    || ident == "drop_last"@
    || ident == "find_first"@
    || ident == "find_last"@
    || ident == "find_first_index"@
    || ident == "find_last_index"@
    || ident == "sublist"@
    || ident == "intersperse"@
    || ident == "split_at"@
    || ident == "split_on"@
    || ident == "split_on_list"@
    || ident == "split_first"@
    || ident == "split_last"@
    || ident == "starts_with"@
    || ident == "ends_with"@
    || ident == "all"@
    || ident == "drop_if"@
    || ident == "sort_asc"@
    || ident == "sort_desc"@
    || ident == "reserve"@
    || ident == "release_excess_capacity"@
    || ident == "walk_backwards_until"@
    || ident == "count_if"@
    || ident == "chunks_of"@
    || ident == "concat_utf8"@
    || ident == "for_each!"@
    || ident == "for_each_try!"@
    || ident == "walk!"@
    || ident == "walk_try!"@
}

/// Operations of the builtin `Dict` module that are written as method calls.
pub open spec fn is_dict_method(ident: Seq<char>) -> bool {
    ident == "clear"@
    || ident == "capacity"@
    || ident == "reserve"@
    || ident == "release_excess_capacity"@
    || ident == "len"@
    || ident == "is_empty"@
    || ident == "get"@
    || ident == "contains"@
    || ident == "insert"@
    || ident == "remove"@
    || ident == "update"@
    || ident == "walk"@
    || ident == "walk_until"@
    || ident == "keep_if"@
    || ident == "drop_if"@
    || ident == "to_list"@
    || ident == "keys"@
    || ident == "values"@
    || ident == "insert_all"@
    || ident == "keep_shared"@
    || ident == "remove_all"@
    || ident == "map"@
    || ident == "join_map"@
}

/// Whether `module_name.ident` is a recognized builtin operation, which a pipe
/// rewrites into a method call.
pub open spec fn is_static_method_spec(module_name: Seq<char>, ident: Seq<char>) -> bool {
    if module_name == "Str"@ {
        is_str_method(ident)
    } else if module_name == "List"@ {
        is_list_method(ident)
    } else if module_name == "Dict"@ {
        is_dict_method(ident)
    } else {
        false
    }
}

fn str_method(ident: &Vec<char>) -> (r: bool)
    ensures
        r == is_str_method(ident@),
{
    chars_eq(ident, "concat")
    || chars_eq(ident, "is_empty")
    || chars_eq(ident, "join_with")
    || chars_eq(ident, "split_on")
    || chars_eq(ident, "repeat")
    || chars_eq(ident, "count_utf8_bytes")
    || chars_eq(ident, "to_utf8")
    || chars_eq(ident, "starts_with")
    || chars_eq(ident, "ends_with")
    || chars_eq(ident, "trim")
    || chars_eq(ident, "trim_start")
    || chars_eq(ident, "trim_end")
    || chars_eq(ident, "to_dec")
    || chars_eq(ident, "to_f64")
    || chars_eq(ident, "to_f32")
    || chars_eq(ident, "to_u128")
    || chars_eq(ident, "to_i128")
    || chars_eq(ident, "to_u64")
    || chars_eq(ident, "to_i64")
    || chars_eq(ident, "to_u32")
    || chars_eq(ident, "to_i32")
    || chars_eq(ident, "to_u16")
    || chars_eq(ident, "to_i16")
    || chars_eq(ident, "to_u8")
    || chars_eq(ident, "to_i8")
    || chars_eq(ident, "replace_each")
    || chars_eq(ident, "replace_first")
    || chars_eq(ident, "replace_last")
    || chars_eq(ident, "split_first")
    || chars_eq(ident, "split_last")
    || chars_eq(ident, "walk_utf8")
    || chars_eq(ident, "walk_utf8_with_index")
    || chars_eq(ident, "reserve")
    || chars_eq(ident, "release_excess_capacity")
    || chars_eq(ident, "with_prefix")
    || chars_eq(ident, "contains")
    || chars_eq(ident, "drop_prefix")
    || chars_eq(ident, "drop_suffix")
    || chars_eq(ident, "with_ascii_lowercased")
    || chars_eq(ident, "with_ascii_uppercased")
    || chars_eq(ident, "caseless_ascii_equals")
}

fn list_method(ident: &Vec<char>) -> (r: bool)
    ensures
        r == is_list_method(ident@),
{
    chars_eq(ident, "is_empty")
    || chars_eq(ident, "get")
    || chars_eq(ident, "set")
    || chars_eq(ident, "replace")
    || chars_eq(ident, "update")
    || chars_eq(ident, "append")
    || chars_eq(ident, "append_if_ok")
    || chars_eq(ident, "prepend")
    || chars_eq(ident, "prepend_if_ok")
    || chars_eq(ident, "map")
    || chars_eq(ident, "len")
    || chars_eq(ident, "walk_backwards")
    || chars_eq(ident, "concat")
    || chars_eq(ident, "first")
    || chars_eq(ident, "single")
    || chars_eq(ident, "repeat")
    || chars_eq(ident, "reverse")
    || chars_eq(ident, "join")
    || chars_eq(ident, "keep_if")
    || chars_eq(ident, "contains")
    || chars_eq(ident, "sum")
    || chars_eq(ident, "walk")
    || chars_eq(ident, "last")
    || chars_eq(ident, "keep_oks")
    || chars_eq(ident, "keep_errs")
    || chars_eq(ident, "map_with_index")
    || chars_eq(ident, "map2")
    || chars_eq(ident, "map3")
    || chars_eq(ident, "product")
    || chars_eq(ident, "walk_with_index")
    || chars_eq(ident, "walk_until")
    || chars_eq(ident, "walk_with_index_until")
    || chars_eq(ident, "walk_from")
    || chars_eq(ident, "walk_from_until")
    || chars_eq(ident, "range")
    || chars_eq(ident, "sort_with")
    || chars_eq(ident, "swap")
    || chars_eq(ident, "drop_at")
    || chars_eq(ident, "min")
    || chars_eq(ident, "max")
    || chars_eq(ident, "map4")
    || chars_eq(ident, "map_try")
    || chars_eq(ident, "walk_try")
    || chars_eq(ident, "join_map")
    || chars_eq(ident, "any")
    || chars_eq(ident, "take_first")
    || chars_eq(ident, "take_last")
    || chars_eq(ident, "drop_first")
    || chars_eq(ident, "drop_last")
    || chars_eq(ident, "find_first")
    || chars_eq(ident, "find_last")
    || chars_eq(ident, "find_first_index")
    || chars_eq(ident, "find_last_index")
    || chars_eq(ident, "sublist")
    || chars_eq(ident, "intersperse")
    || chars_eq(ident, "split_at")
    || chars_eq(ident, "split_on")
    || chars_eq(ident, "split_on_list")
    || chars_eq(ident, "split_first")
    || chars_eq(ident, "split_last")
    || chars_eq(ident, "starts_with")
    || chars_eq(ident, "ends_with")
    || chars_eq(ident, "all")
    || chars_eq(ident, "drop_if")
    || chars_eq(ident, "sort_asc")
    || chars_eq(ident, "sort_desc")
    || chars_eq(ident, "reserve")
    || chars_eq(ident, "release_excess_capacity")
    || chars_eq(ident, "walk_backwards_until")
    || chars_eq(ident, "count_if")
    || chars_eq(ident, "chunks_of")
    || chars_eq(ident, "concat_utf8")
    || chars_eq(ident, "for_each!")
    || chars_eq(ident, "for_each_try!")
    || chars_eq(ident, "walk!")
    || chars_eq(ident, "walk_try!")
}

fn dict_method(ident: &Vec<char>) -> (r: bool)
    ensures
        r == is_dict_method(ident@),
{
    chars_eq(ident, "clear")
    || chars_eq(ident, "capacity")
    || chars_eq(ident, "reserve")
    || chars_eq(ident, "release_excess_capacity")
    || chars_eq(ident, "len")
    || chars_eq(ident, "is_empty")
    || chars_eq(ident, "get")
    || chars_eq(ident, "contains")
    || chars_eq(ident, "insert")
    || chars_eq(ident, "remove")
    || chars_eq(ident, "update")
    || chars_eq(ident, "walk")
    || chars_eq(ident, "walk_until")
    || chars_eq(ident, "keep_if")
    || chars_eq(ident, "drop_if")
    || chars_eq(ident, "to_list")
    || chars_eq(ident, "keys")
    || chars_eq(ident, "values")
    || chars_eq(ident, "insert_all")
    || chars_eq(ident, "keep_shared")
    || chars_eq(ident, "remove_all")
    || chars_eq(ident, "map")
    || chars_eq(ident, "join_map")
}

pub fn is_static_method(module_name: &Vec<char>, ident: &Vec<char>) -> (r: bool)
    ensures
        r == is_static_method_spec(module_name@, ident@),
{
    if chars_eq(module_name, "Str") {
        str_method(ident)
    } else if chars_eq(module_name, "List") {
        list_method(ident)
    } else if chars_eq(module_name, "Dict") {
        dict_method(ident)
    } else {
        false
    }
}

} // verus!
