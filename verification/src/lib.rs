//! Exports a bitemporal fact ledger as RDF.
pub mod text;
pub mod time;
pub mod json;
pub mod uuid;
pub mod term;
pub mod words;
pub mod sink;
pub mod read;
pub mod steps;
pub mod rows;
pub mod names;
pub mod vocabulary;
pub mod literals;
pub mod cells;
pub mod expr;
pub mod emit_ontology;
pub mod emit_rules;
pub mod emit_sources;
pub mod emit_validity;
pub mod emit_fact;
pub mod emit_derived;
pub mod groups;
pub mod integrity;
pub mod pages;
pub mod statement_pages;
pub mod rule_pages;
pub mod export;
pub mod laws_terms;
pub mod laws_among;
pub mod laws_rows;
pub mod laws_statements;
pub mod laws_rules;
pub mod laws_names;
pub mod laws_emit;
pub mod laws_refusal;
pub mod laws_whole;
pub mod laws_pages;
pub mod laws_messages;
pub mod laws_verdicts;
pub mod laws_completion;
pub mod laws_texts;
pub mod laws_files;
pub mod laws_stream;
pub mod laws_literals;
