# tgbot

A Telegram bot, run as an AWS Lambda function, that lists, creates, edits and
deletes text items kept in a DynamoDB table.

- `src/` is the verified library: reading commands out of updates
  (`update`), the command table (`commands`), what each command answers and
  which change of the table it asks for (`handlers`), outgoing messages with
  their inline keyboards (`messages`), stored items (`items`), text
  operations (`text`), and what whole conversations achieve (`flows`).
- `app/` is the Lambda function: it parses webhook requests, calls the
  library, and talks to Telegram and DynamoDB.
- `tests/` runs the library on concrete updates.
