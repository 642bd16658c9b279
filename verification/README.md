# renovate_metadashboard

A dashboard of Renovate dependency updates across the repositories of a
Forgejo, GitLab or Bitbucket Server instance.

The library in `src/` is verified with Verus:

- `config`: settings from the environment's values, platform names;
- `client`: each platform's base URL and pull-request search pages;
- `markdown`, `parser`: reading a "Dependency Dashboard" issue into sections;
- `fetch`: the decisions taken while fetching (dashboard issue, paging,
  Renovate pull requests, build states);
- `order`, `report`: the HTML report, repositories with most updates first;
- `text`: string helpers.

`app/` is the program: it reads the environment, talks to the platforms'
APIs and writes the report file.
