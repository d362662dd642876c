# api-types

Standard API response types (`ApiResponse`, `ApiError`, `ApiListResponse`,
`PaginationMeta`, the strict `JSend` envelope and RFC 7807 `ProblemDetail`),
written in Verus.

- `src/` is the verified library. Every type has a model (`View`), and every
  constructor, builder and conversion states its result over that model.
  `src/laws.rs` holds the properties that span several operations (outcome
  preservation of the JSend conversion, the shape of success and error
  envelopes, the builder setters, the status-code table).
- `app/` holds what Verus does not take: copies of the types with the serde
  and utoipa derives (the JSON wire format), `Display`/`Error`, and the axum
  `IntoResponse` integration. They convert to and from the library's types
  and delegate to it.
- `tests/` exercises the library on concrete values.
