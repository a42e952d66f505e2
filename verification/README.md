# newsletter_admin

Verified logic of a newsletter service's admin area, written in Verus.

- `src/html.rs`: the HTML of the newsletter-issue and change-password forms,
  with pending flash messages rendered above the form.
- `src/reply.rs`: what a handler answers (a redirect carrying a flash message,
  or a server error).
- `src/subscriber.rs`: re-validation of stored subscriber addresses (through
  the `validator` crate).
- `src/newsletter.rs`: the delivery of an issue as a state machine, with the
  law that every valid subscriber receives it exactly once, in order.
- `src/password.rs`: the password change as a state machine, with the law that
  a password is stored only after every check has passed.
- `app/`: the actix-web handlers that perform the database and e-mail I/O and
  follow the state machines.
