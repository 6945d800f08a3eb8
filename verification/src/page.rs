//! The front end: one page whose script asks the server for listings and
//! shows them as a tree to click through.

use vstd::prelude::*;

verus! {

/// The page that `GET /` shows.
pub const FRONT_END: &'static str = r#"
    <!DOCTYPE html>
    <html lang="en">
    <head>
        <link rel="stylesheet" href="assets/styles.css">
        <meta charset="UTF-8">
        <meta name="viewport" content="width=device-width, initial-scale=1.0">
        <title>Lan Server</title>
        <script>
            async function fetchDirectory(path = '') {
                try {
                    const response = await fetch(`/list/${path}`, {
                        credentials: 'include' // Include cookies for auth
                    });

                    if (!response.ok) {
                        throw new Error(`HTTP error! status: ${response.status}`);
                    }

                    const data = await response.json();

                    const listContainer = document.getElementById("directory-list");
                    listContainer.innerHTML = "";

                    const parentPath = path.split('/').slice(0, -2).join('/') + '/';
                    const backButton = document.createElement("div");
                    backButton.innerHTML = "<button>Back</button>";
                    backButton.onclick = () => fetchDirectory(parentPath || '');
                    listContainer.appendChild(backButton);

                    data.forEach(entry => {
                        const listItem = document.createElement("div");
                        if (entry.is_dir) {
                            // Directories are clickable to navigate into
                            listItem.innerHTML = `<strong>${entry.name}/</strong>`;
                            listItem.style.cursor = "pointer";
                            listItem.onclick = () => fetchDirectory(`${path}${entry.name}/`);
                        } else {
                            // Files are clickable for download
                            listItem.innerHTML = `<a href='/${path}${entry.name}' download>${entry.name}</a>`;
                        }
                        listContainer.appendChild(listItem);
                    });
                } catch (error) {
                    console.error("Error fetching directory:", error);
                    const listContainer = document.getElementById("directory-list");
                    listContainer.innerHTML = `<div style="color: red;">Error: ${error.message}</div>`;
                }
            }

            window.onload = () => fetchDirectory();
        </script>
    </head>
    <body>
        <h1>Directory Listing</h1>
        <div id="directory-list"></div>
    </body>
    </html>
    "#;

} // verus!
