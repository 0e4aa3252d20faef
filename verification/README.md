# template_build

A console tool that scaffolds C# Web API projects:

* `NEW -n <name> [-p <folder>]` unzips the template named by the `TEMPLATE_PATH`
  setting (a `.env` file may hold it), copies it under the new name and renames
  the template's name in `.cs`, `.csproj` and `.sln` files;
* `ADD -c <controller> -s <service> -m <method> [-rt <type>] [-t <IF|SP>]`
  reads the model of the files to add;
* `-h` shows the help, `EXIT` leaves the console.

Layout:

* `src/` is the library, verified with Verus: the command line (`misc`), the
  data and the decisions taken on each step's result (`definitions`), the
  `ADD` and `NEW` logic (`add_to_template`, `new_template`), verified text
  helpers (`text`) and the regular expressions of the `regex` crate
  (`pattern`).
* `app/` is the program: it reads the console, touches the disk and asks the
  user, and leaves every decision to the library.
* `tests/` exercises the library.
