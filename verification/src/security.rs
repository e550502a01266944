//! Resource limits for untrusted input: a configuration of upper bounds, a
//! recursion depth tracker, and the context that carries both through lexing
//! and parsing.

use vstd::prelude::*;
use vstd::string::*;
use crate::error::{CompilerError, CompilerErrorView, DetailedError, DetailedErrorView, ErrorContext, ErrorContextView};
use crate::text::{decimal_text, push_decimal, push_str, string_of};

verus! {

/// Upper bounds enforced on source text, tokens and syntax.
#[derive(Debug, Clone, Copy, PartialEq, Eq, Structural)]
pub struct SecurityConfig {
    /// Maximum recursion depth for parsing.
    pub max_recursion_depth: usize,
    /// Maximum source code size in bytes.
    pub max_source_size: usize,
    /// Maximum number of tokens.
    pub max_token_count: usize,
    /// Maximum string literal length.
    pub max_string_length: usize,
    /// Maximum identifier length.
    pub max_identifier_length: usize,
    /// Maximum number of elements of an array or dictionary literal.
    pub max_collection_size: usize,
    /// Maximum function parameter count.
    pub max_function_parameters: usize,
    /// Whether the strict preset is in force.
    pub strict_mode: bool,
}

/// The default limits.
pub open spec fn default_config() -> SecurityConfig {
    SecurityConfig {
        max_recursion_depth: 1000,
        max_source_size: 1048576,
        max_token_count: 100000,
        max_string_length: 10240,
        max_identifier_length: 1024,
        max_collection_size: 10000,
        max_function_parameters: 255,
        strict_mode: false,
    }
}

/// The restrictive limits.
pub open spec fn strict_config() -> SecurityConfig {
    SecurityConfig {
        max_recursion_depth: 100,
        max_source_size: 102400,
        max_token_count: 10000,
        max_string_length: 1024,
        max_identifier_length: 256,
        max_collection_size: 1000,
        max_function_parameters: 32,
        strict_mode: true,
    }
}

/// The generous limits meant for development.
pub open spec fn permissive_config() -> SecurityConfig {
    SecurityConfig {
        max_recursion_depth: 10000,
        max_source_size: 10485760,
        max_token_count: 1000000,
        max_string_length: 102400,
        max_identifier_length: 10240,
        max_collection_size: 100000,
        max_function_parameters: 1000,
        strict_mode: false,
    }
}

/// "`what` (`actual`) exceeds maximum allowed `unit` (`limit`)".
pub open spec fn limit_message(
    what: Seq<char>,
    actual: usize,
    unit: Seq<char>,
    limit: usize,
) -> Seq<char> {
    what + " ("@ + decimal_text(actual as nat) + ") exceeds maximum allowed "@ + unit + " ("@
        + decimal_text(limit as nat) + ")"@
}

/// The error raised when a limit tied to a place in the source is exceeded.
pub open spec fn security_error(message: Seq<char>, line: usize, suggestion: Seq<char>) -> DetailedErrorView {
    DetailedErrorView {
        error: CompilerErrorView::SecurityError { message },
        context: Some(
            ErrorContextView {
                file_path: None,
                source_line: "Line "@ + decimal_text(line as nat),
                suggestion: Some(suggestion),
                help: Some("Security limits help prevent resource exhaustion attacks"@),
            },
        ),
    }
}

/// The error raised when a limit on the input as a whole is exceeded.
pub open spec fn resource_limit_error(message: Seq<char>, suggestion: Seq<char>) -> DetailedErrorView {
    DetailedErrorView {
        error: CompilerErrorView::ResourceLimitExceeded { message },
        context: Some(
            ErrorContextView {
                file_path: None,
                source_line: Seq::empty(),
                suggestion: Some(suggestion),
                help: Some("Resource limits protect against denial-of-service attacks"@),
            },
        ),
    }
}

/// The error raised when nesting goes deeper than allowed.
pub open spec fn recursion_error(depth: usize, limit: usize) -> DetailedErrorView {
    DetailedErrorView {
        error: CompilerErrorView::SecurityError {
            message: limit_message("Recursion depth"@, depth, "depth"@, limit),
        },
        context: Some(
            ErrorContextView {
                file_path: None,
                source_line: Seq::empty(),
                suggestion: Some("Simplify nested expressions or increase recursion limit"@),
                help: Some("Deep recursion can cause stack overflow attacks"@),
            },
        ),
    }
}

fn limit_text(what: &str, actual: usize, unit: &str, limit: usize) -> (s: String)
    ensures
        s@ == limit_message(what@, actual, unit@, limit),
{
    let mut out: Vec<char> = Vec::new();
    push_str(what, &mut out);
    push_str(" (", &mut out);
    push_decimal(actual, &mut out);
    push_str(") exceeds maximum allowed ", &mut out);
    push_str(unit, &mut out);
    push_str(" (", &mut out);
    push_decimal(limit, &mut out);
    push_str(")", &mut out);
    assert(out@ =~= limit_message(what@, actual, unit@, limit));
    string_of(&out)
}

impl Default for SecurityConfig {
    fn default() -> (config: Self)
        ensures
            config == default_config(),
    {
        Self {
            max_recursion_depth: 1000,
            max_source_size: 1048576,
            max_token_count: 100000,
            max_string_length: 10240,
            max_identifier_length: 1024,
            max_collection_size: 10000,
            max_function_parameters: 255,
            strict_mode: false,
        }
    }
}

impl SecurityConfig {
    /// Creates a new security configuration with default values.
    pub fn new() -> (config: Self)
        ensures
            config == default_config(),
    {
        Self {
            max_recursion_depth: 1000,
            max_source_size: 1048576,
            max_token_count: 100000,
            max_string_length: 10240,
            max_identifier_length: 1024,
            max_collection_size: 10000,
            max_function_parameters: 255,
            strict_mode: false,
        }
    }

    /// Creates a strict security configuration with more restrictive limits.
    pub fn strict() -> (config: Self)
        ensures
            config == strict_config(),
    {
        Self {
            max_recursion_depth: 100,
            max_source_size: 102400,
            max_token_count: 10000,
            max_string_length: 1024,
            max_identifier_length: 256,
            max_collection_size: 1000,
            max_function_parameters: 32,
            strict_mode: true,
        }
    }

    /// Creates a permissive configuration for development.
    pub fn permissive() -> (config: Self)
        ensures
            config == permissive_config(),
    {
        Self {
            max_recursion_depth: 10000,
            max_source_size: 10485760,
            max_token_count: 1000000,
            max_string_length: 102400,
            max_identifier_length: 10240,
            max_collection_size: 100000,
            max_function_parameters: 1000,
            strict_mode: false,
        }
    }

    /// Validates source code size.
    pub fn validate_source_size(&self, size: usize) -> (r: Result<(), DetailedError>)
        ensures
            r is Ok <==> size <= self.max_source_size,
            r matches Err(e) ==> e@ == resource_limit_error(
                limit_message("Source code size"@, size, "size"@, self.max_source_size),
                "Consider breaking your code into smaller files or increasing the size limit"@,
            ),
    {
        if size > self.max_source_size {
            Err(
                self.create_resource_limit_error(
                    limit_text("Source code size", size, "size", self.max_source_size),
                    "Consider breaking your code into smaller files or increasing the size limit",
                ),
            )
        } else {
            Ok(())
        }
    }

    /// Validates string literal length.
    pub fn validate_string_length(
        &self,
        length: usize,
        line: usize,
        column: usize,
    ) -> (r: Result<(), DetailedError>)
        ensures
            r is Ok <==> length <= self.max_string_length,
            r matches Err(e) ==> e@ == security_error(
                limit_message("String literal length"@, length, "length"@, self.max_string_length),
                line,
                "Consider breaking long strings into multiple parts or using string concatenation"@,
            ),
    {
        if length > self.max_string_length {
            Err(
                self.create_security_error(
                    limit_text("String literal length", length, "length", self.max_string_length),
                    line,
                    column,
                    "Consider breaking long strings into multiple parts or using string concatenation",
                ),
            )
        } else {
            Ok(())
        }
    }

    /// Validates identifier length.
    pub fn validate_identifier_length(
        &self,
        length: usize,
        line: usize,
        column: usize,
    ) -> (r: Result<(), DetailedError>)
        ensures
            r is Ok <==> length <= self.max_identifier_length,
            r matches Err(e) ==> e@ == security_error(
                limit_message("Identifier length"@, length, "length"@, self.max_identifier_length),
                line,
                "Consider using shorter, more descriptive names"@,
            ),
    {
        if length > self.max_identifier_length {
            Err(
                self.create_security_error(
                    limit_text("Identifier length", length, "length", self.max_identifier_length),
                    line,
                    column,
                    "Consider using shorter, more descriptive names",
                ),
            )
        } else {
            Ok(())
        }
    }

    /// Validates collection size (arrays, dictionaries).
    pub fn validate_collection_size(
        &self,
        size: usize,
        line: usize,
        column: usize,
    ) -> (r: Result<(), DetailedError>)
        ensures
            r is Ok <==> size <= self.max_collection_size,
            r matches Err(e) ==> e@ == security_error(
                limit_message("Collection size"@, size, "size"@, self.max_collection_size),
                line,
                "Consider using smaller collections or splitting data across multiple collections"@,
            ),
    {
        if size > self.max_collection_size {
            Err(
                self.create_security_error(
                    limit_text("Collection size", size, "size", self.max_collection_size),
                    line,
                    column,
                    "Consider using smaller collections or splitting data across multiple collections",
                ),
            )
        } else {
            Ok(())
        }
    }

    /// Validates function parameter count.
    pub fn validate_function_parameters(
        &self,
        count: usize,
        line: usize,
        column: usize,
    ) -> (r: Result<(), DetailedError>)
        ensures
            r is Ok <==> count <= self.max_function_parameters,
            r matches Err(e) ==> e@ == security_error(
                limit_message(
                    "Function parameter count"@,
                    count,
                    "count"@,
                    self.max_function_parameters,
                ),
                line,
                "Consider using fewer parameters, objects, or function overloading"@,
            ),
    {
        if count > self.max_function_parameters {
            Err(
                self.create_security_error(
                    limit_text(
                        "Function parameter count",
                        count,
                        "count",
                        self.max_function_parameters,
                    ),
                    line,
                    column,
                    "Consider using fewer parameters, objects, or function overloading",
                ),
            )
        } else {
            Ok(())
        }
    }

    /// Validates token count.
    pub fn validate_token_count(&self, count: usize) -> (r: Result<(), DetailedError>)
        ensures
            r is Ok <==> count <= self.max_token_count,
            r matches Err(e) ==> e@ == resource_limit_error(
                limit_message("Token count"@, count, "count"@, self.max_token_count),
                "Source code is too complex, consider breaking it into smaller modules"@,
            ),
    {
        if count > self.max_token_count {
            Err(
                self.create_resource_limit_error(
                    limit_text("Token count", count, "count", self.max_token_count),
                    "Source code is too complex, consider breaking it into smaller modules",
                ),
            )
        } else {
            Ok(())
        }
    }

    /// Creates a security error with context.
    fn create_security_error(
        &self,
        message: String,
        line: usize,
        column: usize,
        suggestion: &str,
    ) -> (e: DetailedError)
        ensures
            e@ == security_error(message@, line, suggestion@),
    {
        let mut place: Vec<char> = Vec::new();
        push_str("Line ", &mut place);
        push_decimal(line, &mut place);
        assert(place@ =~= "Line "@ + decimal_text(line as nat));
        let error = CompilerError::SecurityError { message };
        let context = ErrorContext::new(string_of(&place)).with_suggestion(
            String::from_str(suggestion),
        ).with_help(String::from_str("Security limits help prevent resource exhaustion attacks"));
        DetailedError::new(error).with_context(context)
    }

    /// Creates a resource limit error.
    fn create_resource_limit_error(&self, message: String, suggestion: &str) -> (e: DetailedError)
        ensures
            e@ == resource_limit_error(message@, suggestion@),
    {
        let error = CompilerError::ResourceLimitExceeded { message };
        let context = ErrorContext::new(String::new()).with_suggestion(
            String::from_str(suggestion),
        ).with_help(String::from_str("Resource limits protect against denial-of-service attacks"));
        DetailedError::new(error).with_context(context)
    }
}

/// Recursion depth tracker for preventing stack exhaustion on nested input.
#[derive(Debug, Clone, Copy)]
pub struct RecursionTracker {
    current_depth: usize,
    max_depth: usize,
}

impl RecursionTracker {
    /// The number of levels entered and not yet left.
    pub closed spec fn depth(&self) -> usize {
        self.current_depth
    }

    /// The deepest level that may be entered.
    pub closed spec fn limit(&self) -> usize {
        self.max_depth
    }

    /// Creates a new recursion tracker with the given maximum depth.
    pub fn new(max_depth: usize) -> (tracker: Self)
        ensures
            tracker.depth() == 0,
            tracker.limit() == max_depth,
    {
        Self { current_depth: 0, max_depth }
    }

    /// Enters a new recursion level. The level is counted even when it is
    /// refused, so that a matching `exit` brings the depth back.
    pub fn enter(&mut self) -> (r: Result<(), DetailedError>)
        ensures
            final(self).limit() == old(self).limit(),
            final(self).depth() == if old(self).depth() < usize::MAX {
                old(self).depth() + 1
            } else {
                usize::MAX as int
            },
            r is Ok <==> old(self).depth() < old(self).limit(),
            r matches Err(e) ==> e@ == recursion_error(final(self).depth(), old(self).limit()),
    {
        let refused = self.current_depth >= self.max_depth;
        if self.current_depth < usize::MAX {
            self.current_depth += 1;
        }
        if refused {
            Err(self.depth_error())
        } else {
            Ok(())
        }
    }

    fn depth_error(&self) -> (e: DetailedError)
        ensures
            e@ == recursion_error(self.depth(), self.limit()),
    {
        DetailedError::new(
            CompilerError::SecurityError {
                message: limit_text("Recursion depth", self.current_depth, "depth", self.max_depth),
            },
        ).with_context(
            ErrorContext::new(String::new()).with_suggestion(
                String::from_str("Simplify nested expressions or increase recursion limit"),
            ).with_help(String::from_str("Deep recursion can cause stack overflow attacks")),
        )
    }

    /// Exits the current recursion level.
    pub fn exit(&mut self)
        ensures
            final(self).limit() == old(self).limit(),
            final(self).depth() == if old(self).depth() > 0 {
                old(self).depth() - 1
            } else {
                0
            },
    {
        if self.current_depth > 0 {
            self.current_depth -= 1;
        }
    }

    /// Gets the current recursion depth.
    pub fn current_depth(&self) -> (d: usize)
        ensures
            d == self.depth(),
    {
        self.current_depth
    }

    /// Gets the maximum allowed depth.
    pub fn max_depth(&self) -> (d: usize)
        ensures
            d == self.limit(),
    {
        self.max_depth
    }
}

/// Security context that can be passed through parsing operations.
#[derive(Debug, Clone, Copy)]
pub struct SecurityContext {
    pub config: SecurityConfig,
    pub recursion_tracker: RecursionTracker,
}

impl SecurityContext {
    /// Creates a new security context with default configuration.
    pub fn new() -> (ctx: Self)
        ensures
            ctx.config == default_config(),
            ctx.recursion_tracker.depth() == 0,
            ctx.recursion_tracker.limit() == default_config().max_recursion_depth,
    {
        Self::with_config(SecurityConfig::new())
    }

    /// Creates a new security context with custom configuration.
    pub fn with_config(config: SecurityConfig) -> (ctx: Self)
        ensures
            ctx.config == config,
            ctx.recursion_tracker.depth() == 0,
            ctx.recursion_tracker.limit() == config.max_recursion_depth,
    {
        let max_depth = config.max_recursion_depth;
        Self { config, recursion_tracker: RecursionTracker::new(max_depth) }
    }

    /// Creates a strict security context.
    pub fn strict() -> (ctx: Self)
        ensures
            ctx.config == strict_config(),
            ctx.recursion_tracker.depth() == 0,
            ctx.recursion_tracker.limit() == strict_config().max_recursion_depth,
    {
        Self::with_config(SecurityConfig::strict())
    }

    /// Creates a permissive security context for development.
    pub fn permissive() -> (ctx: Self)
        ensures
            ctx.config == permissive_config(),
            ctx.recursion_tracker.depth() == 0,
            ctx.recursion_tracker.limit() == permissive_config().max_recursion_depth,
    {
        Self::with_config(SecurityConfig::permissive())
    }
}

impl Default for SecurityContext {
    fn default() -> (ctx: Self)
        ensures
            ctx.config == default_config(),
            ctx.recursion_tracker.depth() == 0,
            ctx.recursion_tracker.limit() == default_config().max_recursion_depth,
    {
        Self::new()
    }
}

} // verus!
