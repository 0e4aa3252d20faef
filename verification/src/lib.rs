//! Template Builder: a console tool that scaffolds a C# Web API project from a
//! zipped template (`NEW`) and adds controller, service and method files to an
//! existing one (`ADD`).  This crate holds the verified logic of the tool:
//! argument handling, the decisions taken on each result, file naming and
//! placement, and the text rewriting applied to template files.
pub mod text;
pub mod definitions;
pub mod misc;
pub mod pattern;
pub mod add_to_template;
pub mod new_template;
