# sms_groups

The verified core of the SMS Groups service, a REST API through which the
members of organizations sign in with their organization's OpenID Connect
provider and receive a token of the service's own.

- `src/` is the library, verified with Verus: configuration values and the
  addresses built from them, the organization and admin documents, object
  identifiers and their hexadecimal form, the OpenID Connect URLs, the
  bearer-token check, and the sign-in and redirect endpoints as state
  machines from an event to the next action.
- `app/` is the server around it: reading the YAML configuration, MongoDB,
  HTTP requests to the provider, signing and verifying tokens, logging, and
  the loops that perform what the state machines ask for.
- `tests/` runs the library on concrete values.
