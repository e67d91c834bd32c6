use vstd::prelude::*;
use vstd::string::*;

verus! {

/// The page shown in the browser once authorization has completed.
pub const SUCCESS_PAGE: &'static str = r#"
<!DOCTYPE html>
<html lang="es">
<head>
    <meta charset="UTF-8">
    <meta name="viewport" content="width=device-width, initial-scale=1.0">
    <title>Autorización Completada</title>
    <style>
        body { 
            font-family: -apple-system, BlinkMacSystemFont, 'Segoe UI', Roboto, sans-serif;
            text-align: center; 
            padding: 50px;
            background: linear-gradient(135deg, #667eea 0%, #764ba2 100%);
            margin: 0;
            min-height: 100vh;
            display: flex;
            align-items: center;
            justify-content: center;
        }
        .container {
            background: white;
            border-radius: 15px;
            padding: 40px;
            box-shadow: 0 20px 40px rgba(0,0,0,0.1);
            max-width: 500px;
            width: 100%;
        }
        .success-icon {
            font-size: 4rem;
            color: #28a745;
            margin-bottom: 20px;
        }
        h2 {
            color: #333;
            margin-bottom: 15px;
        }
        p {
            color: #666;
            font-size: 1.1em;
            line-height: 1.5;
        }
        .countdown {
            font-weight: bold;
            color: #007bff;
        }
    </style>
</head>
<body>
    <div class="container">
        <div class="success-icon">✓</div>
        <h2>¡Autorización Completada!</h2>
        <p>Tu cuenta de Google Drive ha sido vinculada exitosamente.</p>
        <p>Esta ventana se cerrará automáticamente en <span class="countdown" id="countdown">5</span> segundos.</p>
        <p><small>También puedes cerrar esta ventana manualmente.</small></p>
    </div>
    <script>
        let seconds = 5;
        const countdownEl = document.getElementById('countdown');
        
        const interval = setInterval(() => {
            seconds--;
            countdownEl.textContent = seconds;
            
            if (seconds <= 0) {
                clearInterval(interval);
                window.close();
            }
        }, 1000);
    </script>
</body>
</html>
    "#;

/// The part of the authorization error page before the error code.
pub const ERROR_PAGE_HEAD: &'static str = r#"
<!DOCTYPE html>
<html lang="es">
<head>
    <meta charset="UTF-8">
    <meta name="viewport" content="width=device-width, initial-scale=1.0">
    <title>Error de Autorización</title>
    <style>
        body { 
            font-family: -apple-system, BlinkMacSystemFont, 'Segoe UI', Roboto, sans-serif;
            text-align: center; 
            padding: 50px;
            background: linear-gradient(135deg, #ff6b6b 0%, #ee5a24 100%);
            margin: 0;
            min-height: 100vh;
            display: flex;
            align-items: center;
            justify-content: center;
        }
        .container {
            background: white;
            border-radius: 15px;
            padding: 40px;
            box-shadow: 0 20px 40px rgba(0,0,0,0.1);
            max-width: 500px;
            width: 100%;
        }
        .error-icon {
            font-size: 4rem;
            color: #dc3545;
            margin-bottom: 20px;
        }
        h2 {
            color: #333;
            margin-bottom: 15px;
        }
        p {
            color: #666;
            font-size: 1.1em;
            line-height: 1.5;
        }
        .error-code {
            background: #f8f9fa;
            padding: 10px;
            border-radius: 5px;
            font-family: monospace;
            color: #dc3545;
            margin: 15px 0;
        }
    </style>
</head>
<body>
    <div class="container">
        <div class="error-icon">✗</div>
        <h2>Error de Autorización</h2>
        <p>Hubo un problema durante la autorización con Google Drive.</p>
        <div class="error-code">Error: "#;

/// The part of the authorization error page after the error code.
pub const ERROR_PAGE_TAIL: &'static str = r#"</div>
        <p>Por favor, cierra esta ventana e intenta de nuevo desde la aplicación.</p>
        <p><small>Esta ventana se cerrará automáticamente en 10 segundos.</small></p>
    </div>
    <script>
        setTimeout(() => window.close(), 10000);
    </script>
</body>
</html>
    "#;

/// The page shown in the browser once authorization has completed.
pub fn create_success_page() -> (r: String)
    ensures
        r@ == SUCCESS_PAGE@,
{
    String::from_str(SUCCESS_PAGE)
}

/// The page shown in the browser when authorization failed with `error`,
/// which it shows as the error code.
pub fn create_error_page(error: &str) -> (r: String)
    ensures
        r@ == ERROR_PAGE_HEAD@ + error@ + ERROR_PAGE_TAIL@,
{
    let mut page = String::from_str(ERROR_PAGE_HEAD);
    page.append(error);
    page.append(ERROR_PAGE_TAIL);
    page
}

} // verus!
