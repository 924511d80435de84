//! Schema construction for a schema-aware client compiler: arena storage of
//! server objects, scalars and fields, synthesis of subtype pointers on
//! supertypes, normalization keys, configuration options and literal
//! extraction. Executable code is verified against the contracts it carries.

pub mod add_pointers_to_supertypes;
pub mod boulton_literal_parse_error;
pub mod boulton_literals;
pub mod compilation_options;
pub mod ids;
pub mod isograph_schema;
pub mod names;
pub mod normalization_key;
pub mod process_type_definition_error;
pub mod refetch_strategy;
pub mod refinement_order;
pub mod selection;
pub mod source_location;
pub mod type_annotation;
pub mod type_definitions;
pub mod unvalidated_schema;
pub mod validate_schema;
pub mod values;
